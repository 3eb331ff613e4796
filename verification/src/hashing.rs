//! The running integrity hash.
//!
//! One SHA-256 accumulator is fed, in strict encounter order, every seed
//! object's bytes and every certificate's final bytes. After the response
//! round trip the device reports the hash it computed over what it
//! persisted; the two must agree byte for byte.

use vstd::prelude::*;
use sha2::Digest;

verus! {

/// Declares sha2::Sha256, the hash state, as an opaque outside type.
#[verifier::external_type_specification]
#[verifier::external_body]
pub struct ExSha256(sha2::Sha256);

/// The bytes a SHA-256 state has absorbed so far, in order.
pub uninterp spec fn sha_fed(h: sha2::Sha256) -> Seq<u8>;

/// The SHA-256 digest of a byte sequence, determined by the bytes alone.
pub uninterp spec fn sha256_digest(data: Seq<u8>) -> Seq<u8>;

/// Relies on sha2::Sha256::new: a fresh hash state has absorbed nothing.
#[verifier::external_body]
fn sha_new() -> (r: sha2::Sha256)
    ensures
        sha_fed(r) == Seq::<u8>::empty(),
{
    sha2::Sha256::new()
}

/// Relies on sha2::Sha256::update: absorbing appends to the fed bytes.
#[verifier::external_body]
fn sha_update(h: &mut sha2::Sha256, data: &[u8])
    ensures
        sha_fed(*final(h)) == sha_fed(*old(h)) + data@,
{
    h.update(data);
}

/// Relies on sha2::Sha256::finalize (on a clone of the state): the 32-byte
/// digest is a function of the fed bytes alone.
#[verifier::external_body]
fn sha_digest(h: &sha2::Sha256) -> (r: Vec<u8>)
    ensures
        r@ == sha256_digest(sha_fed(*h)),
        r@.len() == 32,
{
    h.clone().finalize().as_slice().to_vec()
}

/// Folds byte runs into one running SHA-256.
pub struct HashAccumulator {
    inner: sha2::Sha256,
}

impl HashAccumulator {
    /// Every byte absorbed so far, in order.
    pub closed spec fn fed_bytes(&self) -> Seq<u8> {
        sha_fed(self.inner)
    }

    pub fn new() -> (r: HashAccumulator)
        ensures
            r.fed_bytes() == Seq::<u8>::empty(),
    {
        HashAccumulator { inner: sha_new() }
    }

    pub fn update(&mut self, data: &[u8])
        ensures
            final(self).fed_bytes() == old(self).fed_bytes() + data@,
    {
        sha_update(&mut self.inner, data);
    }

    pub fn digest(&self) -> (r: Vec<u8>)
        ensures
            r@ == sha256_digest(self.fed_bytes()),
            r@.len() == 32,
    {
        sha_digest(&self.inner)
    }
}

/// Whether the device-reported hash agrees with the host-computed one.
/// Byte order is explicit: some device encodings report the digest with its
/// bytes reversed.
pub open spec fn spec_hash_matches(host: Seq<u8>, device: Seq<u8>, device_reversed: bool)
    -> bool {
    if device_reversed {
        host == device.reverse()
    } else {
        host == device
    }
}

/// Byte-exact comparison of the host hash against the device-reported hash,
/// honouring the declared device byte order.
pub fn hashes_match(host: &[u8], device: &[u8], device_reversed: bool) -> (r: bool)
    ensures
        r == spec_hash_matches(host@, device@, device_reversed),
{
    let n = host.len();
    if n != device.len() {
        return false;
    }
    if device_reversed {
        let mut i: usize = 0;
        while i < n
            invariant
                device_reversed,
                n == host@.len(),
                n == device@.len(),
                i <= n,
                forall|j: int| 0 <= j < i ==> host@[j] == device@.reverse()[j],
            decreases n - i,
        {
            if host[i] != device[n - 1 - i] {
                assert(host@[i as int] != device@.reverse()[i as int]);
                return false;
            }
            i += 1;
        }
        proof {
            assert(host@ =~= device@.reverse());
        }
        true
    } else {
        let mut i: usize = 0;
        while i < n
            invariant
                !device_reversed,
                n == host@.len(),
                n == device@.len(),
                i <= n,
                forall|j: int| 0 <= j < i ==> host@[j] == device@[j],
            decreases n - i,
        {
            if host[i] != device[i] {
                return false;
            }
            i += 1;
        }
        proof {
            assert(host@ =~= device@);
        }
        true
    }
}

} // verus!
