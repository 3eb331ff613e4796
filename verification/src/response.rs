//! The response blob builder.
//!
//! Each certificate the host endorsed is re-serialized into the TLV wire
//! format — object header, certificate sub-header, name, body — and appended
//! to a fixed-capacity output buffer. The capacity is a hard protocol limit:
//! running out is an error, not a resize.

use vstd::prelude::*;
use vstd::utf8::{valid_utf8, decode_utf8, encode_utf8};
use crate::errors::PersoError;
use crate::tlv::{
    spec_be_bytes, spec_be16, spec_pack, spec_low12, spec_high4, spec_type_code,
    spec_type_from_code, spec_cert_size, spec_parse_obj_header, spec_parse_cert, CertModel,
    CertHeader, ObjHeader, ObjType, be_bytes, make_obj_header, make_cert_wrapper_header,
    lemma_pack_fields, lemma_be_bytes_be16,
};

verus! {

/// Hard protocol limit on the response blob, in bytes.
pub const MAX_RESPONSE_BYTES: usize = 4096;

/// Declares arrayvec::ArrayVec, the fixed-capacity vector holding the
/// response bytes, as an opaque outside type.
#[verifier::external_type_specification]
#[verifier::external_body]
#[verifier::reject_recursive_types(T)]
pub struct ExArrayVec<T, const CAP: usize>(arrayvec::ArrayVec<T, CAP>);

/// The bytes a response buffer holds, in order.
pub uninterp spec fn resp_bytes(v: arrayvec::ArrayVec<u8, 4096>) -> Seq<u8>;

/// Relies on arrayvec::ArrayVec::new: a fresh buffer is empty.
#[verifier::external_body]
pub fn buf_new() -> (r: arrayvec::ArrayVec<u8, 4096>)
    ensures
        resp_bytes(r) == Seq::<u8>::empty(),
{
    arrayvec::ArrayVec::new()
}

/// Relies on arrayvec::ArrayVec::try_extend_from_slice: appends when the
/// bytes fit the fixed capacity, and otherwise leaves the buffer unchanged.
#[verifier::external_body]
pub fn buf_extend(v: &mut arrayvec::ArrayVec<u8, 4096>, data: &[u8]) -> (r: bool)
    ensures
        resp_bytes(*old(v)).len() + data@.len() <= 4096 ==> r && resp_bytes(*final(v))
            == resp_bytes(*old(v)) + data@,
        resp_bytes(*old(v)).len() + data@.len() > 4096 ==> !r && resp_bytes(*final(v))
            == resp_bytes(*old(v)),
        resp_bytes(*final(v)).len() <= 4096,
{
    v.try_extend_from_slice(data).is_ok()
}

/// Relies on arrayvec::ArrayVec::len.
#[verifier::external_body]
pub fn buf_len(v: &arrayvec::ArrayVec<u8, 4096>) -> (r: usize)
    ensures
        r == resp_bytes(*v).len(),
{
    v.len()
}

/// Relies on arrayvec::ArrayVec::as_slice.
#[verifier::external_body]
pub fn buf_as_slice(v: &arrayvec::ArrayVec<u8, 4096>) -> (r: &[u8])
    ensures
        r@ == resp_bytes(*v),
{
    v.as_slice()
}

/// The TLV encoding of one endorsed-certificate object: object header,
/// certificate sub-header, name bytes, body bytes.
pub open spec fn spec_cert_object(name_bytes: Seq<u8>, body: Seq<u8>) -> Seq<u8> {
    let total = (4 + name_bytes.len() + body.len()) as u16;
    let wrapped = (2 + name_bytes.len() + body.len()) as u16;
    spec_be_bytes(spec_pack(spec_type_code(ObjType::EndorsedX509Cert), total)) + spec_be_bytes(
        spec_pack(name_bytes.len() as u16, wrapped),
    ) + name_bytes + body
}

/// Append one endorsed certificate, wrapped as a TLV object carrying the
/// name from the certificate it replaces, to the response buffer.
pub fn push_endorsed_cert(
    cert: &Vec<u8>,
    ref_cert: &CertHeader,
    output: &mut arrayvec::ArrayVec<u8, 4096>,
) -> (r: Result<(), PersoError>)
    ensures
        ({
            let nb = encode_utf8(ref_cert.cert_name@);
            let total = 4 + nb.len() + cert@.len();
            &&& total > 0x0fff ==> r == Err::<(), PersoError>(PersoError::SizeOverflow)
                && resp_bytes(*final(output)) == resp_bytes(*old(output))
            &&& total <= 0x0fff && nb.len() > 15 ==> r == Err::<(), PersoError>(
                PersoError::InvalidEncoding,
            ) && resp_bytes(*final(output)) == resp_bytes(*old(output))
            &&& total <= 0x0fff && nb.len() <= 15 && resp_bytes(*old(output)).len() + total
                > 4096 ==> r == Err::<(), PersoError>(PersoError::CapacityExceeded)
                && resp_bytes(*final(output)) == resp_bytes(*old(output))
            &&& total <= 0x0fff && nb.len() <= 15 && resp_bytes(*old(output)).len() + total
                <= 4096 ==> r == Ok::<(), PersoError>(()) && resp_bytes(*final(output))
                == resp_bytes(*old(output)) + spec_cert_object(nb, cert@)
        }),
{
    let name_slice: &[u8] = ref_cert.cert_name.as_str().as_bytes();
    let name_len = name_slice.len();
    if name_len > 0x0fff - 4 || cert.len() > 0x0fff - 4 - name_len {
        return Err(PersoError::SizeOverflow);
    }
    let total = 4 + name_len + cert.len();
    let obj_h = match make_obj_header(total, ObjType::EndorsedX509Cert) {
        Ok(h) => h,
        Err(e) => { return Err(e); },
    };
    let crt_h = match make_cert_wrapper_header(cert.len(), ref_cert.cert_name.as_str()) {
        Ok(h) => h,
        Err(e) => { return Err(e); },
    };
    if buf_len(output) > MAX_RESPONSE_BYTES - total {
        return Err(PersoError::CapacityExceeded);
    }
    let ghost out0 = resp_bytes(*output);
    let obj_bytes = be_bytes(obj_h);
    let crt_bytes = be_bytes(crt_h);
    let ok1 = buf_extend(output, obj_bytes.as_slice());
    assert(ok1);
    let ok2 = buf_extend(output, crt_bytes.as_slice());
    assert(ok2);
    let ok3 = buf_extend(output, name_slice);
    assert(ok3);
    let ok4 = buf_extend(output, cert.as_slice());
    assert(ok4);
    proof {
        assert(resp_bytes(*output) =~= out0 + spec_cert_object(
            encode_utf8(ref_cert.cert_name@),
            cert@,
        ));
    }
    Ok(())
}

/// The TLV encoding of a certificate object is lossless: decoding what the
/// builder wrote — with any further objects packed after it — yields the
/// object type, the total and wrapped sizes, the name and the body that
/// went in.
pub proof fn lemma_cert_object_round_trip(name_bytes: Seq<u8>, body: Seq<u8>, rest: Seq<u8>)
    requires
        valid_utf8(name_bytes),
        name_bytes.len() <= 15,
        4 + name_bytes.len() + body.len() <= 0x0fff,
        spec_cert_size(body) == Some(body.len() as int),
    ensures
        ({
            let enc = spec_cert_object(name_bytes, body) + rest;
            &&& spec_parse_obj_header(enc) == Ok::<ObjHeader, PersoError>(ObjHeader {
                obj_type: ObjType::EndorsedX509Cert,
                obj_size: (4 + name_bytes.len() + body.len()) as usize,
            })
            &&& spec_parse_cert(enc.skip(2)) == Ok::<CertModel, PersoError>(CertModel {
                wrapped: 2 + name_bytes.len() as int + body.len() as int,
                name: decode_utf8(name_bytes),
                body: body,
            })
        }),
{
    let total = (4 + name_bytes.len() + body.len()) as u16;
    let wrapped = (2 + name_bytes.len() + body.len()) as u16;
    let h1 = spec_pack(spec_type_code(ObjType::EndorsedX509Cert), total);
    let h2 = spec_pack(name_bytes.len() as u16, wrapped);
    let enc = spec_cert_object(name_bytes, body) + rest;
    assert(enc =~= spec_be_bytes(h1) + (spec_be_bytes(h2) + name_bytes + body + rest));
    assert(enc[0] == (h1 >> 8) as u8 && enc[1] == (h1 & 0xff) as u8);
    lemma_be_bytes_be16(h1);
    assert(spec_be16(enc[0], enc[1]) == h1);
    lemma_pack_fields(spec_type_code(ObjType::EndorsedX509Cert), total);
    assert(spec_type_from_code(spec_high4(h1)) == Some(ObjType::EndorsedX509Cert));
    assert(spec_low12(h1) == total <= enc.len());
    let tail = enc.skip(2);
    assert(tail =~= spec_be_bytes(h2) + name_bytes + body + rest);
    assert(tail[0] == (h2 >> 8) as u8 && tail[1] == (h2 & 0xff) as u8);
    lemma_be_bytes_be16(h2);
    assert(spec_be16(tail[0], tail[1]) == h2);
    lemma_pack_fields(name_bytes.len() as u16, wrapped);
    assert(spec_low12(h2) == wrapped && spec_high4(h2) == name_bytes.len());
    assert(tail.subrange(2, 2 + name_bytes.len() as int) =~= name_bytes);
    assert(tail.subrange(2 + name_bytes.len() as int, wrapped as int) =~= body);
}

} // verus!
