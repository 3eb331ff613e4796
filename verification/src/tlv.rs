//! The TLV wire format for personalization objects.
//!
//! A blob is a flat byte buffer holding `object_count` objects packed back to
//! back. Each object starts with a fixed 2-byte big-endian header packing the
//! object type (high 4 bits) and the object size including the header itself
//! (low 12 bits). A certificate object then carries its own 2-byte big-endian
//! sub-header packing the name length (high 4 bits) and the wrapped size
//! (low 12 bits), followed by the name bytes and the certificate body.

use vstd::prelude::*;
use vstd::slice::slice_to_vec;
use vstd::string::StringSliceAdditionalSpecFns;
use vstd::utf8::{valid_utf8, decode_utf8};
use crate::errors::PersoError;

verus! {

/// Size in bytes of the packed object header.
pub const OBJ_HEADER_BYTES: usize = 2;

/// Size in bytes of the packed certificate sub-header.
pub const CERT_HEADER_BYTES: usize = 2;

/// Largest value the 12-bit size fields can carry.
pub const SIZE_FIELD_MAX: usize = 0x0fff;

/// Largest name length the 4-bit name-length field can carry.
pub const NAME_LEN_MAX: usize = 15;

pub open spec fn spec_be16(b0: u8, b1: u8) -> u16 {
    (((b0 as u16) << 8) | (b1 as u16)) as u16
}

pub open spec fn spec_low12(h: u16) -> u16 {
    h & 0x0fff
}

pub open spec fn spec_high4(h: u16) -> u16 {
    h >> 12
}

/// Pack a high 4-bit field and a low 12-bit field into one header word.
pub open spec fn spec_pack(high: u16, low: u16) -> u16 {
    ((high << 12) | low) as u16
}

/// The two big-endian bytes of a header word.
pub open spec fn spec_be_bytes(h: u16) -> Seq<u8> {
    seq![(h >> 8) as u8, (h & 0xff) as u8]
}

pub fn be16(b0: u8, b1: u8) -> (r: u16)
    ensures
        r == spec_be16(b0, b1),
{
    ((b0 as u16) << 8) | (b1 as u16)
}

pub fn header_low12(h: u16) -> (r: u16)
    ensures
        r == spec_low12(h),
        r <= 0x0fff,
{
    proof {
        assert(h & 0x0fff <= 0x0fff) by (bit_vector);
    }
    h & 0x0fff
}

pub fn header_high4(h: u16) -> (r: u16)
    ensures
        r == spec_high4(h),
        r <= 0xf,
{
    proof {
        assert(h >> 12 <= 0xf) by (bit_vector);
    }
    h >> 12
}

/// The kinds of object a personalization blob can carry.
#[derive(Clone, Copy, Debug, PartialEq, Eq, Structural)]
pub enum ObjType {
    UnendorsedX509Cert,
    EndorsedX509Cert,
    DevSeed,
}

/// Wire code of each object type: a protocol constant.
pub open spec fn spec_type_code(t: ObjType) -> u16 {
    match t {
        ObjType::UnendorsedX509Cert => 0,
        ObjType::EndorsedX509Cert => 1,
        ObjType::DevSeed => 2,
    }
}

pub open spec fn spec_type_from_code(c: u16) -> Option<ObjType> {
    if c == 0 {
        Some(ObjType::UnendorsedX509Cert)
    } else if c == 1 {
        Some(ObjType::EndorsedX509Cert)
    } else if c == 2 {
        Some(ObjType::DevSeed)
    } else {
        None
    }
}

pub fn obj_type_code(t: ObjType) -> (r: u16)
    ensures
        r == spec_type_code(t),
        r <= 0xf,
{
    match t {
        ObjType::UnendorsedX509Cert => 0,
        ObjType::EndorsedX509Cert => 1,
        ObjType::DevSeed => 2,
    }
}

pub fn obj_type_from_code(c: u16) -> (r: Option<ObjType>)
    ensures
        r == spec_type_from_code(c),
{
    if c == 0 {
        Some(ObjType::UnendorsedX509Cert)
    } else if c == 1 {
        Some(ObjType::EndorsedX509Cert)
    } else if c == 2 {
        Some(ObjType::DevSeed)
    } else {
        None
    }
}

/// One decoded object header. `obj_size` counts the header itself.
#[derive(Clone, Copy, Debug, PartialEq, Eq, Structural)]
pub struct ObjHeader {
    pub obj_type: ObjType,
    pub obj_size: usize,
}

/// What decoding one object header from the front of `data` yields.
pub open spec fn spec_parse_obj_header(data: Seq<u8>) -> Result<ObjHeader, PersoError> {
    if data.len() < 2 {
        Err(PersoError::TruncatedInput)
    } else {
        let h = spec_be16(data[0], data[1]);
        match spec_type_from_code(spec_high4(h)) {
            None => Err(PersoError::InvalidEncoding),
            Some(t) => {
                if spec_low12(h) > data.len() {
                    Err(PersoError::SizeOverflow)
                } else {
                    Ok(ObjHeader { obj_type: t, obj_size: spec_low12(h) as usize })
                }
            },
        }
    }
}

/// Decode one object header from the front of `data`. The declared size must
/// not exceed the bytes remaining, so a caller advancing by it stays in
/// bounds.
pub fn get_obj_header(data: &[u8]) -> (r: Result<ObjHeader, PersoError>)
    ensures
        r == spec_parse_obj_header(data@),
        r matches Ok(h) ==> 0 <= h.obj_size <= data@.len() && h.obj_size <= 0x0fff,
{
    if data.len() < OBJ_HEADER_BYTES {
        return Err(PersoError::TruncatedInput);
    }
    let h = be16(data[0], data[1]);
    let obj_size = header_low12(h);
    let obj_type = match obj_type_from_code(header_high4(h)) {
        None => { return Err(PersoError::InvalidEncoding); },
        Some(t) => t,
    };
    if obj_size as usize > data.len() {
        return Err(PersoError::SizeOverflow);
    }
    Ok(ObjHeader { obj_type, obj_size: obj_size as usize })
}

/// The size an X.509 DER certificate declares for itself: the body must open
/// a SEQUENCE with a two-byte length (`0x30 0x82 hi lo`), and the whole
/// certificate is that length plus the four opening bytes.
pub open spec fn spec_cert_size(b: Seq<u8>) -> Option<int> {
    if b.len() >= 4 && b[0] == 0x30 && b[1] == 0x82 {
        Some((b[2] as int) * 256 + (b[3] as int) + 4)
    } else {
        None
    }
}

/// Read the self-declared size out of a DER certificate body.
pub fn get_cert_size(cert: &[u8]) -> (r: Result<usize, PersoError>)
    ensures
        match (r, spec_cert_size(cert@)) {
            (Ok(s), Some(ms)) => s == ms,
            (Err(e), None) => e == PersoError::MalformedCertificate,
            _ => false,
        },
{
    if cert.len() < 4 {
        return Err(PersoError::MalformedCertificate);
    }
    if cert[0] != 0x30 || cert[1] != 0x82 {
        return Err(PersoError::MalformedCertificate);
    }
    Ok((cert[2] as usize) * 256 + (cert[3] as usize) + 4)
}

/// Declares core::str::Utf8Error, the error from UTF-8 decoding, as an
/// opaque outside type.
#[verifier::external_type_specification]
#[verifier::external_body]
pub struct ExUtf8Error(core::str::Utf8Error);

/// Relies on core::str::from_utf8: succeeds exactly on valid UTF-8 input,
/// and then returns the string reading those bytes.
pub assume_specification<'a>[ core::str::from_utf8 ](v: &'a [u8]) -> (r: Result<
    &'a str,
    core::str::Utf8Error,
>)
    ensures
        r is Ok <==> valid_utf8(v@),
        r matches Ok(s) ==> s@ == decode_utf8(v@),
;

/// One decoded certificate sub-header: the wrapped size covers the
/// sub-header, the name and the body.
pub struct CertHeader {
    pub wrapped_size: usize,
    pub cert_name: String,
    pub cert_body: Vec<u8>,
}

/// Mathematical shape of a decoded certificate object.
#[verifier::ext_equal]
pub struct CertModel {
    pub wrapped: int,
    pub name: Seq<char>,
    pub body: Seq<u8>,
}

impl View for CertHeader {
    type V = CertModel;

    open spec fn view(&self) -> CertModel {
        CertModel {
            wrapped: self.wrapped_size as int,
            name: self.cert_name@,
            body: self.cert_body@,
        }
    }
}

/// What decoding one certificate object (sub-header onward) from the front
/// of `data` yields.
pub open spec fn spec_parse_cert(data: Seq<u8>) -> Result<CertModel, PersoError> {
    if data.len() < 2 {
        Err(PersoError::TruncatedInput)
    } else {
        let h = spec_be16(data[0], data[1]);
        let wrapped = spec_low12(h) as int;
        let name_len = spec_high4(h) as int;
        if wrapped > data.len() {
            Err(PersoError::SizeOverflow)
        } else if 2 + name_len > wrapped {
            Err(PersoError::SizeMismatch)
        } else {
            let name_bytes = data.subrange(2, 2 + name_len);
            if !valid_utf8(name_bytes) {
                Err(PersoError::InvalidEncoding)
            } else {
                let body = data.subrange(2 + name_len, wrapped);
                match spec_cert_size(body) {
                    None => Err(PersoError::MalformedCertificate),
                    Some(sz) => {
                        if sz != body.len() {
                            Err(PersoError::SizeMismatch)
                        } else {
                            Ok(CertModel { wrapped, name: decode_utf8(name_bytes), body })
                        }
                    },
                }
            }
        }
    }
}

/// Decode one certificate object from the front of `data`: wrapped size and
/// name from the sub-header, then the body, which must agree with its own
/// self-declared certificate size.
pub fn get_cert(data: &[u8]) -> (r: Result<CertHeader, PersoError>)
    ensures
        match (r, spec_parse_cert(data@)) {
            (Ok(c), Ok(m)) => c@ == m && c.wrapped_size <= data@.len(),
            (Err(e), Err(me)) => e == me,
            _ => false,
        },
{
    if data.len() < CERT_HEADER_BYTES {
        return Err(PersoError::TruncatedInput);
    }
    let h = be16(data[0], data[1]);
    let wrapped_size = header_low12(h) as usize;
    let name_len = header_high4(h) as usize;
    if wrapped_size > data.len() {
        return Err(PersoError::SizeOverflow);
    }
    if 2 + name_len > wrapped_size {
        return Err(PersoError::SizeMismatch);
    }
    let name_bytes: &[u8] = &data[2..2 + name_len];
    let cert_name: String = match core::str::from_utf8(name_bytes) {
        Ok(s) => s.to_owned(),
        Err(_) => { return Err(PersoError::InvalidEncoding); },
    };
    let cert_body: Vec<u8> = slice_to_vec(&data[2 + name_len..wrapped_size]);
    let cert_size = match get_cert_size(cert_body.as_slice()) {
        Ok(s) => s,
        Err(e) => { return Err(e); },
    };
    if cert_size != cert_body.len() {
        return Err(PersoError::SizeMismatch);
    }
    let c = CertHeader { wrapped_size, cert_name, cert_body };
    proof {
        let m = spec_parse_cert(data@);
        assert(c@ =~= m->Ok_0);
    }
    Ok(c)
}

/// Pack an object header for an object of `total_size` bytes (header
/// included). The size must fit the 12-bit size field.
pub fn make_obj_header(total_size: usize, t: ObjType) -> (r: Result<u16, PersoError>)
    ensures
        total_size > 0x0fff ==> r == Err::<u16, PersoError>(PersoError::SizeOverflow),
        total_size <= 0x0fff ==> r == Ok::<u16, PersoError>(
            spec_pack(spec_type_code(t), total_size as u16),
        ),
{
    if total_size > SIZE_FIELD_MAX {
        return Err(PersoError::SizeOverflow);
    }
    let code = obj_type_code(t);
    Ok((code << 12) | (total_size as u16))
}

/// Pack a certificate sub-header for a body of `cert_len` bytes carrying the
/// given name. The name must fit the 4-bit length field and the wrapped size
/// the 12-bit size field.
pub fn make_cert_wrapper_header(cert_len: usize, name: &str) -> (r: Result<u16, PersoError>)
    ensures
        ({
            let nlen = name.spec_bytes().len() as int;
            &&& nlen > 15 ==> r == Err::<u16, PersoError>(PersoError::InvalidEncoding)
            &&& nlen <= 15 && 2 + nlen + cert_len > 0x0fff ==> r == Err::<u16, PersoError>(
                PersoError::SizeOverflow,
            )
            &&& nlen <= 15 && 2 + nlen + cert_len <= 0x0fff ==> r == Ok::<u16, PersoError>(
                spec_pack(nlen as u16, (2 + nlen + cert_len) as u16),
            )
        }),
{
    let name_len = name.as_bytes().len();
    if name_len > NAME_LEN_MAX {
        return Err(PersoError::InvalidEncoding);
    }
    if cert_len > 0x0fff - 2 - name_len {
        return Err(PersoError::SizeOverflow);
    }
    let wrapped = 2 + name_len + cert_len;
    Ok(((name_len as u16) << 12) | (wrapped as u16))
}

/// Write a header word as its two big-endian bytes.
pub fn be_bytes(h: u16) -> (r: Vec<u8>)
    ensures
        r@ == spec_be_bytes(h),
{
    proof {
        assert(h >> 8 <= 0xff) by (bit_vector);
        assert(h & 0xff <= 0xff) by (bit_vector);
    }
    let v: Vec<u8> = vec![(h >> 8) as u8, (h & 0xff) as u8];
    proof {
        assert(v@ =~= spec_be_bytes(h));
    }
    v
}

/// Packing then splitting a header word gives the fields back.
pub proof fn lemma_pack_fields(high: u16, low: u16)
    requires
        high <= 0xf,
        low <= 0x0fff,
    ensures
        spec_low12(spec_pack(high, low)) == low,
        spec_high4(spec_pack(high, low)) == high,
{
    assert(high <= 0xf && low <= 0x0fff ==> (((high << 12) | low) as u16) & 0x0fff == low
        && (((high << 12) | low) as u16) >> 12 == high) by (bit_vector);
}

/// Splitting a header word into big-endian bytes and reading them back gives
/// the word back.
pub proof fn lemma_be_bytes_be16(h: u16)
    ensures
        spec_be16((h >> 8) as u8, (h & 0xff) as u8) == h,
{
    assert(((((h >> 8) as u8) as u16) << 8) | (((h & 0xff) as u8) as u16) == h) by (bit_vector);
}

} // verus!
