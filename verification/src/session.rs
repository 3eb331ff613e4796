//! The personalization orchestrator.
//!
//! One `Session` drives a single run through its strictly sequential
//! phases: await inputs, exchange the device blob, process each object in
//! order, send the response, verify the integrity hash, validate the
//! certificate chain. Work only the outside world can do — endorsing a
//! certificate, re-parsing it, exchanging bytes with the device, validating
//! the chain — is handed out through the step results and fed back in as
//! plain values; every decision about those values is made here.

use vstd::prelude::*;
use vstd::slice::slice_to_vec;
use vstd::string::StrSliceExecFns;
use vstd::utf8::encode_utf8;
use crate::errors::PersoError;
use crate::hashing::{HashAccumulator, sha256_digest, spec_hash_matches, hashes_match};
use crate::response::{resp_bytes, buf_new, buf_as_slice, spec_cert_object, push_endorsed_cert};
use crate::tlv::{ObjType, CertHeader, spec_parse_obj_header, spec_parse_cert, get_obj_header,
    get_cert};

verus! {

/// Bytes in one device seed.
pub const SEED_SIZE: usize = 64;

/// Seeds a seed object must carry.
pub const EXPECTED_SEED_COUNT: usize = 2;

/// A blob exchanged with the device: `num_objs` TLV objects packed back to
/// back from offset 0 of `body`.
pub struct PersoBlob {
    pub num_objs: usize,
    pub next_free: usize,
    pub body: Vec<u8>,
}

/// Encoding of a certificate retained for chain validation.
#[derive(Clone, Copy, Debug, PartialEq, Eq, Structural)]
pub enum CertFormat {
    X509,
}

/// One certificate the host endorsed in this run, retained for post-hoc
/// chain validation. `ignore_critical` is set only for the reserved
/// identity-certificate name, whose non-standard critical extensions are
/// deliberately allowed.
pub struct EndorsedCertRecord {
    pub format: CertFormat,
    pub bytes: Vec<u8>,
    pub ignore_critical: bool,
}

/// Mathematical shape of an endorsed-certificate record.
#[verifier::ext_equal]
pub struct RecordModel {
    pub format: CertFormat,
    pub bytes: Seq<u8>,
    pub ignore_critical: bool,
}

impl View for EndorsedCertRecord {
    type V = RecordModel;

    open spec fn view(&self) -> RecordModel {
        RecordModel {
            format: self.format,
            bytes: self.bytes@,
            ignore_critical: self.ignore_critical,
        }
    }
}

/// Why the outside endorsement engine failed.
#[derive(Clone, Copy, Debug, PartialEq, Eq, Structural)]
pub enum EndorseFailure {
    /// The body did not parse as a to-be-signed structure.
    Malformed,
    /// The signing operation itself failed.
    SigningFailed,
    /// The remote key service failed when asked to sign.
    KeyService,
}

/// The phases of one run, in order; `Failed` is terminal and reachable from
/// any phase.
#[derive(Clone, Copy, Debug, PartialEq, Eq, Structural)]
pub enum Phase {
    AwaitingInputs,
    ExchangingBlob,
    ProcessingObjects,
    SendingResponse,
    VerifyingIntegrity,
    ValidatingChain,
    Done,
    Failed(PersoError),
}

/// A certificate object whose outside work (endorsement, re-parse) is still
/// pending.
pub struct PendingCert {
    pub header: CertHeader,
    pub needs_endorsement: bool,
    pub endorsed: Option<Vec<u8>>,
}

/// What processing one object asks of the caller next.
pub enum ObjectStep {
    /// A seed object was folded into the hash; nothing to do outside.
    SeedProcessed,
    /// An unendorsed certificate: have the engine endorse this body, then
    /// report the result and the re-parse check.
    EndorseCert { body: Vec<u8> },
    /// An already-endorsed certificate: re-parse this body to confirm
    /// validity, then report the result.
    CheckCert { body: Vec<u8> },
}

/// Two sessions agree on everything a caller can observe except the phase.
pub open spec fn same_but_phase(a: &Session, b: &Session) -> bool {
    &&& a.fed() == b.fed()
    &&& a.out() == b.out()
    &&& a.spec_records() == b.spec_records()
    &&& a.num_endorsed_spec() == b.num_endorsed_spec()
    &&& a.objs_done_spec() == b.objs_done_spec()
    &&& a.blob_spec() == b.blob_spec()
    &&& a.remaining() == b.remaining()
    &&& a.pending_cert() == b.pending_cert()
}

/// The name reserved for the identity certificate.
pub open spec fn spec_is_uds(name: Seq<char>) -> bool {
    name == seq!['U', 'D', 'S']
}

/// Whether a certificate name is the reserved identity-certificate name.
pub fn is_uds_name(name: &str) -> (r: bool)
    ensures
        r == spec_is_uds(name@),
{
    if name.unicode_len() != 3 {
        assert(name@ != seq!['U', 'D', 'S']);
        return false;
    }
    let r = name.get_char(0) == 'U' && name.get_char(1) == 'D' && name.get_char(2) == 'S';
    proof {
        if r {
            assert(name@ =~= seq!['U', 'D', 'S']);
        } else {
            assert(name@ != seq!['U', 'D', 'S']);
        }
    }
    r
}

/// Check a seed region holds exactly the expected number of fixed-size
/// seeds.
pub fn process_dev_seeds(seeds: &[u8]) -> (r: Result<(), PersoError>)
    ensures
        r is Ok <==> seeds@.len() == SEED_SIZE * EXPECTED_SEED_COUNT,
        r is Err ==> r == Err::<(), PersoError>(PersoError::SizeMismatch),
{
    if seeds.len() != SEED_SIZE * EXPECTED_SEED_COUNT {
        return Err(PersoError::SizeMismatch);
    }
    Ok(())
}

/// One personalization run.
pub struct Session {
    phase: Phase,
    blob: PersoBlob,
    cursor: usize,
    objs_done: usize,
    hasher: HashAccumulator,
    output: arrayvec::ArrayVec<u8, 4096>,
    num_endorsed: usize,
    records: Vec<EndorsedCertRecord>,
    pending: Option<PendingCert>,
}

impl Session {
    /// The current phase.
    pub closed spec fn phase(&self) -> Phase {
        self.phase
    }

    /// Every byte folded into the running hash so far, in encounter order.
    pub closed spec fn fed(&self) -> Seq<u8> {
        self.hasher.fed_bytes()
    }

    /// The response buffer's bytes so far.
    pub closed spec fn out(&self) -> Seq<u8> {
        resp_bytes(self.output)
    }

    /// The records retained for chain validation, as models.
    pub closed spec fn spec_records(&self) -> Seq<RecordModel> {
        Seq::new(self.records@.len(), |i: int| self.records@[i]@)
    }

    /// How many certificates the host endorsed so far.
    pub closed spec fn num_endorsed_spec(&self) -> int {
        self.num_endorsed as int
    }

    /// Objects fully or partially consumed so far.
    pub closed spec fn objs_done_spec(&self) -> int {
        self.objs_done as int
    }

    /// The blob under processing.
    pub closed spec fn blob_spec(&self) -> (int, Seq<u8>) {
        (self.blob.num_objs as int, self.blob.body@)
    }

    /// The bytes not yet consumed.
    pub closed spec fn remaining(&self) -> Seq<u8> {
        self.blob.body@.skip(self.cursor as int)
    }

    /// The certificate object awaiting outside work, if any.
    pub closed spec fn pending_cert(&self) -> Option<PendingCert> {
        self.pending
    }

    /// Internal consistency: one record per endorsement, the cursor inside
    /// the blob, the output within its capacity, and any pending name short
    /// enough to re-wrap.
    pub closed spec fn wf(&self) -> bool {
        &&& self.records@.len() == self.num_endorsed
        &&& self.cursor <= self.blob.body@.len()
        &&& self.out().len() <= 4096
        &&& (self.pending matches Some(p) ==> encode_utf8(p.header.cert_name@).len() <= 15)
    }

    pub fn current_phase(&self) -> (r: Phase)
        ensures
            r == self.phase(),
    {
        self.phase
    }

    pub fn objects_done(&self) -> (r: usize)
        ensures
            r == self.objs_done_spec(),
    {
        self.objs_done
    }

    pub fn object_count(&self) -> (r: usize)
        ensures
            r == self.blob_spec().0,
    {
        self.blob.num_objs
    }

    pub fn num_endorsed_count(&self) -> (r: usize)
        ensures
            r == self.num_endorsed_spec(),
    {
        self.num_endorsed
    }

    /// A fresh run, awaiting the certificate-generation inputs.
    pub fn new() -> (s: Session)
        ensures
            s.wf(),
            s.phase() == Phase::AwaitingInputs,
            s.fed() == Seq::<u8>::empty(),
            s.out() == Seq::<u8>::empty(),
            s.spec_records() == Seq::<RecordModel>::empty(),
            s.num_endorsed_spec() == 0,
            s.pending_cert() is None,
    {
        let s = Session {
            phase: Phase::AwaitingInputs,
            blob: PersoBlob { num_objs: 0, next_free: 0, body: Vec::new() },
            cursor: 0,
            objs_done: 0,
            hasher: HashAccumulator::new(),
            output: buf_new(),
            num_endorsed: 0,
            records: Vec::new(),
            pending: None,
        };
        proof {
            assert(s.spec_records() =~= Seq::<RecordModel>::empty());
        }
        s
    }

    /// The certificate-generation inputs went to the device; the blob
    /// exchange begins.
    pub fn certgen_inputs_sent(&mut self)
        requires
            old(self).wf(),
            old(self).phase() == Phase::AwaitingInputs,
        ensures
            final(self).wf(),
            final(self).phase() == Phase::ExchangingBlob,
            same_but_phase(final(self), old(self)),
    {
        self.phase = Phase::ExchangingBlob;
    }

    /// The device's blob arrived; object processing begins at offset 0.
    pub fn blob_received(&mut self, blob: PersoBlob)
        requires
            old(self).wf(),
            old(self).phase() == Phase::ExchangingBlob,
        ensures
            final(self).wf(),
            final(self).phase() == Phase::ProcessingObjects,
            final(self).blob_spec() == (blob.num_objs as int, blob.body@),
            final(self).objs_done_spec() == 0,
            final(self).remaining() == blob.body@,
            final(self).fed() == old(self).fed(),
            final(self).out() == old(self).out(),
            final(self).spec_records() == old(self).spec_records(),
            final(self).num_endorsed_spec() == old(self).num_endorsed_spec(),
            final(self).pending_cert() == old(self).pending_cert(),
    {
        self.phase = Phase::ProcessingObjects;
        self.blob = blob;
        self.cursor = 0;
        self.objs_done = 0;
        proof {
            assert(self.remaining() =~= self.blob.body@);
        }
    }

    /// Decode the next object and dispatch on its type. A seed object is
    /// folded into the hash here; a certificate object is handed back for
    /// its outside work. Any decoding failure ends the run.
    pub fn next_object(&mut self) -> (r: Result<ObjectStep, PersoError>)
        requires
            old(self).wf(),
            old(self).phase() == Phase::ProcessingObjects,
            old(self).pending_cert() is None,
            old(self).objs_done_spec() < old(self).blob_spec().0,
        ensures
            final(self).wf(),
            ({
                let rem = old(self).remaining();
                let hdr = spec_parse_obj_header(rem);
                match hdr {
                    Err(e) => r == Err::<ObjectStep, PersoError>(e) && final(self).phase()
                        == Phase::Failed(e),
                    Ok(h) => {
                        if h.obj_type == ObjType::DevSeed {
                            if h.obj_size != 130 {
                                r == Err::<ObjectStep, PersoError>(PersoError::SizeMismatch)
                                    && final(self).phase() == Phase::Failed(PersoError::SizeMismatch)
                            } else {
                                &&& r matches Ok(s) && s is SeedProcessed
                                &&& final(self).phase() == Phase::ProcessingObjects
                                &&& final(self).fed() == old(self).fed() + rem.subrange(2, 130)
                                &&& final(self).remaining() == rem.skip(130)
                                &&& final(self).pending_cert() is None
                                &&& final(self).objs_done_spec() == old(self).objs_done_spec() + 1
                                &&& final(self).out() == old(self).out()
                                &&& final(self).spec_records() == old(self).spec_records()
                                &&& final(self).num_endorsed_spec() == old(self).num_endorsed_spec()
                                &&& final(self).blob_spec() == old(self).blob_spec()
                            }
                        } else {
                            match spec_parse_cert(rem.skip(2)) {
                                Err(e) => r == Err::<ObjectStep, PersoError>(e) && final(self).phase() == Phase::Failed(e),
                                Ok(m) => {
                                    &&& (match r {
                                        Ok(ObjectStep::EndorseCert { body }) => h.obj_type
                                            == ObjType::UnendorsedX509Cert && body@ == m.body,
                                        Ok(ObjectStep::CheckCert { body }) => h.obj_type
                                            == ObjType::EndorsedX509Cert && body@ == m.body,
                                        _ => false,
                                    })
                                    &&& final(self).phase() == Phase::ProcessingObjects
                                    &&& (match final(self).pending_cert() {
                                        Some(p) => {
                                            &&& p.header@ == m
                                            &&& p.needs_endorsement == (h.obj_type
                                                == ObjType::UnendorsedX509Cert)
                                            &&& p.endorsed is None
                                        },
                                        None => false,
                                    })
                                    &&& final(self).remaining() == rem.skip(2 + m.wrapped)
                                    &&& final(self).fed() == old(self).fed()
                                    &&& final(self).objs_done_spec() == old(self).objs_done_spec()
                                        + 1
                                    &&& final(self).out() == old(self).out()
                                    &&& final(self).spec_records() == old(self).spec_records()
                                    &&& final(self).num_endorsed_spec() == old(self).num_endorsed_spec()
                                    &&& final(self).blob_spec() == old(self).blob_spec()
                                },
                            }
                        }
                    },
                }
            }),
    {
        let body_len = self.blob.body.len();
        let data: &[u8] = &self.blob.body.as_slice()[self.cursor..body_len];
        let header = match get_obj_header(data) {
            Ok(h) => h,
            Err(e) => {
                self.phase = Phase::Failed(e);
                return Err(e);
            },
        };
        match header.obj_type {
            ObjType::DevSeed => {
                if header.obj_size < 2 {
                    self.phase = Phase::Failed(PersoError::SizeMismatch);
                    return Err(PersoError::SizeMismatch);
                }
                let seed_end = self.cursor + header.obj_size;
                let seeds: &[u8] = &self.blob.body.as_slice()[self.cursor + 2..seed_end];
                match process_dev_seeds(seeds) {
                    Ok(()) => {},
                    Err(e) => {
                        self.phase = Phase::Failed(e);
                        return Err(e);
                    },
                }
                self.hasher.update(seeds);
                self.cursor = seed_end;
                self.objs_done = self.objs_done + 1;
                proof {
                    let rem = old(self).remaining();
                    assert(seeds@ =~= rem.subrange(2, 130));
                    assert(self.remaining() =~= rem.skip(130));
                    assert(self.spec_records() =~= old(self).spec_records());
                }
                Ok(ObjectStep::SeedProcessed)
            },
            _ => {
                let cert_start = self.cursor + 2;
                let cdata: &[u8] = &self.blob.body.as_slice()[cert_start..body_len];
                proof {
                    assert(cdata@ =~= old(self).remaining().skip(2));
                }
                let cert = match get_cert(cdata) {
                    Ok(c) => c,
                    Err(e) => {
                        self.phase = Phase::Failed(e);
                        return Err(e);
                    },
                };
                let needs = header.obj_type == ObjType::UnendorsedX509Cert;
                self.cursor = cert_start + cert.wrapped_size;
                self.objs_done = self.objs_done + 1;
                let body_copy = slice_to_vec(cert.cert_body.as_slice());
                self.pending = Some(
                    PendingCert { header: cert, needs_endorsement: needs, endorsed: None },
                );
                proof {
                    assert(self.remaining() =~= old(self).remaining().skip(
                        2 + spec_parse_cert(old(self).remaining().skip(2))->Ok_0.wrapped,
                    ));
                    assert(self.spec_records() =~= old(self).spec_records());
                    let rem2 = old(self).remaining().skip(2);
                    let h = crate::tlv::spec_be16(rem2[0], rem2[1]);
                    let name_bytes = rem2.subrange(2, 2 + crate::tlv::spec_high4(h) as int);
                    assert(h >> 12 <= 0xf) by (bit_vector);
                    vstd::utf8::decode_utf8_encode_utf8(name_bytes);
                }
                if needs {
                    Ok(ObjectStep::EndorseCert { body: body_copy })
                } else {
                    Ok(ObjectStep::CheckCert { body: body_copy })
                }
            },
        }
    }

    /// Record what the outside endorsement engine produced for the pending
    /// certificate. A failure there — malformed input or a failed signing
    /// operation — ends the run before anything is recorded or hashed.
    pub fn endorsement_done(&mut self, result: Result<Vec<u8>, EndorseFailure>) -> (r: Result<
        (),
        PersoError,
    >)
        requires
            old(self).wf(),
            old(self).phase() == Phase::ProcessingObjects,
            old(self).pending_cert() matches Some(p) && p.needs_endorsement && p.endorsed is None,
        ensures
            final(self).wf(),
            ({
                match result {
                    Ok(bytes) => {
                        &&& r == Ok::<(), PersoError>(())
                        &&& final(self).phase() == Phase::ProcessingObjects
                        &&& (match (final(self).pending_cert(), old(self).pending_cert()) {
                            (Some(p), Some(q)) => p.header == q.header && p.needs_endorsement
                                && p.endorsed == Some(bytes),
                            _ => false,
                        })
                        &&& final(self).fed() == old(self).fed()
                        &&& final(self).out() == old(self).out()
                        &&& final(self).spec_records() == old(self).spec_records()
                        &&& final(self).num_endorsed_spec() == old(self).num_endorsed_spec()
                        &&& final(self).objs_done_spec() == old(self).objs_done_spec()
                        &&& final(self).blob_spec() == old(self).blob_spec()
                        &&& final(self).remaining() == old(self).remaining()
                    },
                    Err(EndorseFailure::Malformed) => r == Err::<(), PersoError>(
                        PersoError::MalformedCertificate,
                    ) && final(self).phase() == Phase::Failed(PersoError::MalformedCertificate),
                    Err(EndorseFailure::SigningFailed) => r == Err::<(), PersoError>(
                        PersoError::SigningFailed,
                    ) && final(self).phase() == Phase::Failed(PersoError::SigningFailed),
                    Err(EndorseFailure::KeyService) => r == Err::<(), PersoError>(
                        PersoError::KeyServiceError,
                    ) && final(self).phase() == Phase::Failed(PersoError::KeyServiceError),
                }
            }),
    {
        let p = self.pending.take();
        match p {
            Some(mut pc) => {
                match result {
                    Ok(bytes) => {
                        pc.endorsed = Some(bytes);
                        self.pending = Some(pc);
                        proof {
                            assert(self.spec_records() =~= old(self).spec_records());
                        }
                        Ok(())
                    },
                    Err(EndorseFailure::Malformed) => {
                        self.phase = Phase::Failed(PersoError::MalformedCertificate);
                        Err(PersoError::MalformedCertificate)
                    },
                    Err(EndorseFailure::SigningFailed) => {
                        self.phase = Phase::Failed(PersoError::SigningFailed);
                        Err(PersoError::SigningFailed)
                    },
                    Err(EndorseFailure::KeyService) => {
                        self.phase = Phase::Failed(PersoError::KeyServiceError);
                        Err(PersoError::KeyServiceError)
                    },
                }
            },
            None => {
                proof {
                    assert(false);
                }
                Err(PersoError::MalformedCertificate)
            },
        }
    }

    /// Complete the pending certificate once the outside re-parse check
    /// reported back. On success the final bytes — the endorsement result
    /// for an unendorsed certificate, the original body otherwise — are
    /// folded into the hash; a host-endorsed certificate is also recorded
    /// for chain validation and re-wrapped into the response buffer.
    pub fn cert_checked(&mut self, parse_ok: bool) -> (r: Result<(), PersoError>)
        requires
            old(self).wf(),
            old(self).phase() == Phase::ProcessingObjects,
            old(self).pending_cert() matches Some(p) && (p.needs_endorsement ==> p.endorsed
                is Some),
        ensures
            final(self).wf(),
            final(self).objs_done_spec() == old(self).objs_done_spec(),
            final(self).blob_spec() == old(self).blob_spec(),
            final(self).remaining() == old(self).remaining(),
            ({
                let p = old(self).pending_cert()->Some_0;
                if !parse_ok {
                    r == Err::<(), PersoError>(PersoError::MalformedCertificate) && final(self).phase() == Phase::Failed(PersoError::MalformedCertificate) && final(self).fed() == old(self).fed() && final(self).out() == old(self).out() && final(self).spec_records() == old(self).spec_records()
                } else if p.needs_endorsement {
                    let bytes = p.endorsed->Some_0@;
                    let nb = encode_utf8(p.header.cert_name@);
                    let total = 4 + nb.len() + bytes.len();
                    if total > 0x0fff {
                        r == Err::<(), PersoError>(PersoError::SizeOverflow) && final(self).phase() == Phase::Failed(PersoError::SizeOverflow) && final(self).fed()
                            == old(self).fed() && final(self).out() == old(self).out() && final(self).spec_records() == old(self).spec_records()
                    } else if old(self).out().len() + total > 4096 {
                        r == Err::<(), PersoError>(PersoError::CapacityExceeded) && final(self).phase() == Phase::Failed(PersoError::CapacityExceeded) && final(self).fed() == old(self).fed() && final(self).out() == old(self).out() && final(self).spec_records() == old(self).spec_records()
                    } else {
                        &&& r == Ok::<(), PersoError>(())
                        &&& final(self).phase() == Phase::ProcessingObjects
                        &&& final(self).pending_cert() is None
                        &&& final(self).fed() == old(self).fed() + bytes
                        &&& final(self).out() == old(self).out() + spec_cert_object(nb, bytes)
                        &&& final(self).spec_records() == old(self).spec_records().push(
                            (RecordModel {
                                format: CertFormat::X509,
                                bytes: bytes,
                                ignore_critical: spec_is_uds(p.header.cert_name@),
                            }),
                        )
                        &&& final(self).num_endorsed_spec() == old(self).num_endorsed_spec() + 1
                    }
                } else {
                    &&& r == Ok::<(), PersoError>(())
                    &&& final(self).phase() == Phase::ProcessingObjects
                    &&& final(self).pending_cert() is None
                    &&& final(self).fed() == old(self).fed() + p.header.cert_body@
                    &&& final(self).out() == old(self).out()
                    &&& final(self).spec_records() == old(self).spec_records()
                    &&& final(self).num_endorsed_spec() == old(self).num_endorsed_spec()
                }
            }),
    {
        let p = self.pending.take();
        match p {
            Some(pc) => {
                if !parse_ok {
                    self.phase = Phase::Failed(PersoError::MalformedCertificate);
                    return Err(PersoError::MalformedCertificate);
                }
                if pc.needs_endorsement {
                    let bytes = match pc.endorsed {
                        Some(b) => b,
                        None => {
                            proof {
                                assert(false);
                            }
                            return Err(PersoError::MalformedCertificate);
                        },
                    };
                    match push_endorsed_cert(&bytes, &pc.header, &mut self.output) {
                        Ok(()) => {},
                        Err(e) => {
                            self.phase = Phase::Failed(e);
                            return Err(e);
                        },
                    }
                    let rec = EndorsedCertRecord {
                        format: CertFormat::X509,
                        bytes: slice_to_vec(bytes.as_slice()),
                        ignore_critical: is_uds_name(pc.header.cert_name.as_str()),
                    };
                    self.records.push(rec);
                    self.num_endorsed = self.records.len();
                    self.hasher.update(bytes.as_slice());
                    proof {
                        let p0 = old(self).pending_cert()->Some_0;
                        assert(self.spec_records() =~= old(self).spec_records().push(
                            (RecordModel {
                                format: CertFormat::X509,
                                bytes: p0.endorsed->Some_0@,
                                ignore_critical: spec_is_uds(p0.header.cert_name@),
                            }),
                        ));
                    }
                    Ok(())
                } else {
                    self.hasher.update(pc.header.cert_body.as_slice());
                    proof {
                        assert(self.spec_records() =~= old(self).spec_records());
                    }
                    Ok(())
                }
            },
            None => {
                proof {
                    assert(false);
                }
                Err(PersoError::MalformedCertificate)
            },
        }
    }

    /// Every declared object was processed; the run moves on to sending the
    /// response.
    pub fn objects_complete(&mut self)
        requires
            old(self).wf(),
            old(self).phase() == Phase::ProcessingObjects,
            old(self).pending_cert() is None,
            old(self).objs_done_spec() == old(self).blob_spec().0,
        ensures
            final(self).wf(),
            final(self).phase() == Phase::SendingResponse,
            same_but_phase(final(self), old(self)),
    {
        self.phase = Phase::SendingResponse;
    }

    /// The built response bytes: every certificate endorsed this run,
    /// re-wrapped in TLV, in processing order. The caller passes them
    /// through the external post-processing hook before transmission.
    pub fn response_body(&self) -> (r: Vec<u8>)
        requires
            self.wf(),
            self.phase() == Phase::SendingResponse,
        ensures
            r@ == self.out(),
    {
        slice_to_vec(buf_as_slice(&self.output))
    }

    /// Wrap (possibly hook-transformed) response bytes as the blob to send
    /// back: one object per endorsed certificate.
    pub fn build_response(&self, body: Vec<u8>) -> (r: PersoBlob)
        requires
            self.wf(),
            self.phase() == Phase::SendingResponse,
        ensures
            r.num_objs == self.num_endorsed_spec(),
            r.next_free == body@.len(),
            r.body == body,
    {
        let next_free = body.len();
        PersoBlob { num_objs: self.num_endorsed, next_free, body }
    }

    /// The response went to the device; integrity verification begins.
    pub fn response_sent(&mut self)
        requires
            old(self).wf(),
            old(self).phase() == Phase::SendingResponse,
        ensures
            final(self).wf(),
            final(self).phase() == Phase::VerifyingIntegrity,
            same_but_phase(final(self), old(self)),
    {
        self.phase = Phase::VerifyingIntegrity;
    }

    /// The host-computed integrity hash over everything fed so far.
    pub fn host_hash(&self) -> (r: Vec<u8>)
        requires
            self.wf(),
        ensures
            r@ == sha256_digest(self.fed()),
            r@.len() == 32,
    {
        self.hasher.digest()
    }

    /// Compare the device-reported hash against the host hash, byte for
    /// byte, honouring the declared device byte order. A mismatch is fatal:
    /// the device persisted different bytes than the host computed.
    pub fn device_hash_received(&mut self, device_hash: &[u8], device_reversed: bool) -> (r:
        Result<(), PersoError>)
        requires
            old(self).wf(),
            old(self).phase() == Phase::VerifyingIntegrity,
        ensures
            final(self).wf(),
            ({
                let m = spec_hash_matches(
                    sha256_digest(old(self).fed()),
                    device_hash@,
                    device_reversed,
                );
                if m {
                    r == Ok::<(), PersoError>(()) && final(self).phase()
                        == Phase::ValidatingChain
                } else {
                    r == Err::<(), PersoError>(PersoError::IntegrityMismatch) && final(self).phase() == Phase::Failed(PersoError::IntegrityMismatch)
                }
            }),
            same_but_phase(final(self), old(self)),
    {
        let host = self.hasher.digest();
        if hashes_match(host.as_slice(), device_hash, device_reversed) {
            self.phase = Phase::ValidatingChain;
            Ok(())
        } else {
            self.phase = Phase::Failed(PersoError::IntegrityMismatch);
            Err(PersoError::IntegrityMismatch)
        }
    }

    /// The records to hand to the outside chain validator — present exactly
    /// when this run endorsed at least one certificate. An all-passthrough
    /// run skips validation.
    pub fn chain_to_validate(&self) -> (r: Option<&Vec<EndorsedCertRecord>>)
        requires
            self.wf(),
            self.phase() == Phase::ValidatingChain,
        ensures
            r is Some <==> self.num_endorsed_spec() > 0,
            (match r {
                Some(v) => v@.len() == self.spec_records().len() && (forall|i: int|
                    0 <= i < v@.len() ==> v@[i]@ == self.spec_records()[i]),
                None => true,
            }),
    {
        if self.num_endorsed == 0 {
            None
        } else {
            Some(&self.records)
        }
    }

    /// Record the outside chain validator's verdict.
    pub fn chain_validated(&mut self, ok: bool) -> (r: Result<(), PersoError>)
        requires
            old(self).wf(),
            old(self).phase() == Phase::ValidatingChain,
            old(self).num_endorsed_spec() > 0,
        ensures
            final(self).wf(),
            ok ==> r == Ok::<(), PersoError>(()) && final(self).phase() == Phase::Done,
            !ok ==> r == Err::<(), PersoError>(PersoError::ChainValidationFailed) && final(self).phase() == Phase::Failed(PersoError::ChainValidationFailed),
            same_but_phase(final(self), old(self)),
    {
        if ok {
            self.phase = Phase::Done;
            Ok(())
        } else {
            self.phase = Phase::Failed(PersoError::ChainValidationFailed);
            Err(PersoError::ChainValidationFailed)
        }
    }

    /// An all-passthrough run: nothing was endorsed, so chain validation is
    /// skipped and the run completes.
    pub fn chain_skipped(&mut self)
        requires
            old(self).wf(),
            old(self).phase() == Phase::ValidatingChain,
            old(self).num_endorsed_spec() == 0,
        ensures
            final(self).wf(),
            final(self).phase() == Phase::Done,
            same_but_phase(final(self), old(self)),
    {
        self.phase = Phase::Done;
    }
}

} // verus!
