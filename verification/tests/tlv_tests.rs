use ft_lib::errors::PersoError;
use ft_lib::tlv::{
    be_bytes, get_cert, get_cert_size, get_obj_header, make_cert_wrapper_header, make_obj_header,
    ObjType,
};

/// A DER-style certificate body whose self-declared size matches its length:
/// `0x30 0x82 hi lo` followed by `payload` of the declared length.
fn der_body(payload: &[u8]) -> Vec<u8> {
    let n = payload.len() as u16;
    let mut v = vec![0x30, 0x82, (n >> 8) as u8, (n & 0xff) as u8];
    v.extend_from_slice(payload);
    v
}

fn cert_obj(type_code: u16, name: &str, body: &[u8]) -> Vec<u8> {
    let wrapped = 2 + name.len() + body.len();
    let total = 2 + wrapped;
    let mut v = Vec::new();
    let oh = (type_code << 12) | (total as u16);
    let ch = ((name.len() as u16) << 12) | (wrapped as u16);
    v.push((oh >> 8) as u8);
    v.push((oh & 0xff) as u8);
    v.push((ch >> 8) as u8);
    v.push((ch & 0xff) as u8);
    v.extend_from_slice(name.as_bytes());
    v.extend_from_slice(body);
    v
}

#[test]
fn obj_header_seed_round_trip() {
    let h = make_obj_header(130, ObjType::DevSeed).unwrap();
    assert_eq!(h, 0x2082);
    let mut buf = be_bytes(h);
    buf.resize(130, 0);
    let parsed = get_obj_header(&buf).unwrap();
    assert_eq!(parsed.obj_type, ObjType::DevSeed);
    assert_eq!(parsed.obj_size, 130);
}

#[test]
fn obj_header_truncated() {
    assert_eq!(get_obj_header(&[0x20]), Err(PersoError::TruncatedInput));
    assert_eq!(get_obj_header(&[]), Err(PersoError::TruncatedInput));
}

#[test]
fn obj_header_size_overflow() {
    // Declares 130 bytes but only 10 remain.
    let buf = vec![0x20, 0x82, 0, 0, 0, 0, 0, 0, 0, 0];
    assert_eq!(get_obj_header(&buf), Err(PersoError::SizeOverflow));
}

#[test]
fn obj_header_unknown_type() {
    // Type code 7 is not a known object type.
    let buf = vec![0x70, 0x04, 0, 0];
    assert_eq!(get_obj_header(&buf), Err(PersoError::InvalidEncoding));
}

#[test]
fn obj_header_overflow_checked_before_nothing_read_past() {
    // A huge declared size on a tiny buffer: must fail, never read past.
    let buf = vec![0x2f, 0xff];
    assert_eq!(get_obj_header(&buf), Err(PersoError::SizeOverflow));
}

#[test]
fn make_obj_header_rejects_oversize() {
    assert_eq!(
        make_obj_header(0x1000, ObjType::EndorsedX509Cert),
        Err(PersoError::SizeOverflow)
    );
}

#[test]
fn cert_size_reads_der_length() {
    let body = der_body(&[1, 2, 3, 4]);
    assert_eq!(get_cert_size(&body), Ok(8));
    assert_eq!(
        get_cert_size(&[0x31, 0x82, 0, 0]),
        Err(PersoError::MalformedCertificate)
    );
    assert_eq!(get_cert_size(&[0x30]), Err(PersoError::MalformedCertificate));
}

#[test]
fn cert_round_trip_fields() {
    let body = der_body(&[9, 8, 7, 6, 5]);
    let obj = cert_obj(0, "UDS", &body);
    let header = get_obj_header(&obj).unwrap();
    assert_eq!(header.obj_type, ObjType::UnendorsedX509Cert);
    assert_eq!(header.obj_size, obj.len());
    let cert = get_cert(&obj[2..]).unwrap();
    assert_eq!(cert.cert_name, "UDS");
    assert_eq!(cert.cert_body, body);
    assert_eq!(cert.wrapped_size, 2 + 3 + body.len());
}

#[test]
fn cert_wrapped_size_overflow() {
    let body = der_body(&[1, 2, 3]);
    let obj = cert_obj(1, "KEY", &body);
    // Cut the buffer short of the declared wrapped size.
    assert_eq!(get_cert(&obj[2..6]).err(), Some(PersoError::SizeOverflow));
}

#[test]
fn cert_truncated() {
    assert_eq!(get_cert(&[0x10]).err(), Some(PersoError::TruncatedInput));
}

#[test]
fn cert_self_declared_size_mismatch() {
    // Body declares 9 bytes of payload but carries 4: otherwise valid.
    let mut body = der_body(&[1, 2, 3, 4]);
    body[3] = 9;
    let obj = cert_obj(1, "OWN", &body);
    assert_eq!(get_cert(&obj[2..]).err(), Some(PersoError::SizeMismatch));
}

#[test]
fn cert_body_not_der() {
    let body = vec![0xde, 0xad, 0xbe, 0xef];
    let obj = cert_obj(1, "OWN", &body);
    assert_eq!(get_cert(&obj[2..]).err(), Some(PersoError::MalformedCertificate));
}

#[test]
fn cert_name_not_text() {
    let body = der_body(&[1, 2, 3, 4]);
    let wrapped = 2 + 2 + body.len();
    let total = 2 + wrapped;
    let oh: u16 = (1 << 12) | (total as u16);
    let ch: u16 = (2 << 12) | (wrapped as u16);
    let mut obj = vec![
        (oh >> 8) as u8,
        (oh & 0xff) as u8,
        (ch >> 8) as u8,
        (ch & 0xff) as u8,
        0xff,
        0xfe,
    ];
    obj.extend_from_slice(&body);
    assert_eq!(get_cert(&obj[2..]).err(), Some(PersoError::InvalidEncoding));
}

#[test]
fn cert_wrapper_header_packs_name_and_size() {
    let h = make_cert_wrapper_header(8, "UDS").unwrap();
    assert_eq!(h, (3 << 12) | 13);
    assert_eq!(
        make_cert_wrapper_header(8, "averylongcertname"),
        Err(PersoError::InvalidEncoding)
    );
    // The largest wrapped size still fits; one byte more does not.
    assert_eq!(
        make_cert_wrapper_header(0x0ffa, "UDS"),
        Ok((3 << 12) | 0x0fff)
    );
    assert_eq!(
        make_cert_wrapper_header(0x0ffb, "UDS"),
        Err(PersoError::SizeOverflow)
    );
}
