use ft_lib::errors::PersoError;
use ft_lib::session::{EndorseFailure, ObjectStep, PersoBlob, Phase, Session};
use sha2::{Digest, Sha256};

fn der_body(payload: &[u8]) -> Vec<u8> {
    let n = payload.len() as u16;
    let mut v = vec![0x30, 0x82, (n >> 8) as u8, (n & 0xff) as u8];
    v.extend_from_slice(payload);
    v
}

fn cert_obj(type_code: u16, name: &str, body: &[u8]) -> Vec<u8> {
    let wrapped = 2 + name.len() + body.len();
    let total = 2 + wrapped;
    let oh = (type_code << 12) | (total as u16);
    let ch = ((name.len() as u16) << 12) | (wrapped as u16);
    let mut v = vec![
        (oh >> 8) as u8,
        (oh & 0xff) as u8,
        (ch >> 8) as u8,
        (ch & 0xff) as u8,
    ];
    v.extend_from_slice(name.as_bytes());
    v.extend_from_slice(body);
    v
}

fn seed_obj(seeds: &[u8]) -> Vec<u8> {
    let total = 2 + seeds.len();
    let oh = (2u16 << 12) | (total as u16);
    let mut v = vec![(oh >> 8) as u8, (oh & 0xff) as u8];
    v.extend_from_slice(seeds);
    v
}

fn start_session(num_objs: usize, body: Vec<u8>) -> Session {
    let mut s = Session::new();
    assert_eq!(s.current_phase(), Phase::AwaitingInputs);
    s.certgen_inputs_sent();
    assert_eq!(s.current_phase(), Phase::ExchangingBlob);
    let next_free = body.len();
    s.blob_received(PersoBlob {
        num_objs,
        next_free,
        body,
    });
    assert_eq!(s.current_phase(), Phase::ProcessingObjects);
    s
}

#[test]
fn scenario_seed_only_run_succeeds() {
    let seeds = [0xabu8; 128];
    let mut s = start_session(1, seed_obj(&seeds));

    let step = s.next_object().unwrap();
    assert!(matches!(step, ObjectStep::SeedProcessed));
    assert_eq!(s.objects_done(), 1);

    s.objects_complete();
    let resp = s.response_body();
    assert!(resp.is_empty());
    let blob = s.build_response(resp);
    assert_eq!(blob.num_objs, 0);
    assert_eq!(blob.next_free, 0);
    s.response_sent();

    let host = s.host_hash();
    assert_eq!(host.as_slice(), Sha256::digest(seeds).as_slice());

    let mut device = host.clone();
    device.reverse();
    s.device_hash_received(&device, true).unwrap();
    assert!(s.chain_to_validate().is_none());
    s.chain_skipped();
    assert_eq!(s.current_phase(), Phase::Done);
}

#[test]
fn scenario_endorse_and_passthrough() {
    let uds_body = der_body(&[1, 2, 3, 4]);
    let owner_body = der_body(&[5, 6, 7, 8, 9]);
    let mut blob = cert_obj(0, "UDS", &uds_body);
    blob.extend_from_slice(&cert_obj(1, "OWNER", &owner_body));
    let mut s = start_session(2, blob);

    // The unendorsed "UDS" certificate is handed out for endorsement.
    let step = s.next_object().unwrap();
    let endorsed = der_body(&[0xE0, 0xE1, 0xE2, 0xE3, 0xE4, 0xE5]);
    match step {
        ObjectStep::EndorseCert { body } => assert_eq!(body, uds_body),
        _ => panic!("expected an endorsement request"),
    }
    s.endorsement_done(Ok(endorsed.clone())).unwrap();
    s.cert_checked(true).unwrap();
    assert_eq!(s.num_endorsed_count(), 1);

    // The already-endorsed "OWNER" certificate is only checked and hashed.
    let step = s.next_object().unwrap();
    match step {
        ObjectStep::CheckCert { body } => assert_eq!(body, owner_body),
        _ => panic!("expected a passthrough check"),
    }
    s.cert_checked(true).unwrap();
    assert_eq!(s.num_endorsed_count(), 1);

    s.objects_complete();
    let resp = s.response_body();
    // The response carries exactly one object: the endorsed "UDS".
    let expected = cert_obj(1, "UDS", &endorsed);
    assert_eq!(resp, expected);
    let blob_out = s.build_response(resp.clone());
    assert_eq!(blob_out.num_objs, 1);
    assert_eq!(blob_out.next_free, resp.len());

    // Decoding what the builder encoded gives the fields back.
    let header = ft_lib::tlv::get_obj_header(&resp).unwrap();
    assert_eq!(header.obj_type, ft_lib::tlv::ObjType::EndorsedX509Cert);
    assert_eq!(header.obj_size, resp.len());
    let cert = ft_lib::tlv::get_cert(&resp[2..]).unwrap();
    assert_eq!(cert.cert_name, "UDS");
    assert_eq!(cert.cert_body, endorsed);

    s.response_sent();

    // The hash covers the endorsed bytes, then the passthrough body.
    let mut hasher = Sha256::new();
    hasher.update(&endorsed);
    hasher.update(&owner_body);
    let device: Vec<u8> = hasher.finalize().to_vec();
    s.device_hash_received(&device, false).unwrap();

    let records = s.chain_to_validate().expect("one endorsement to validate");
    assert_eq!(records.len(), 1);
    assert!(records[0].ignore_critical);
    assert_eq!(records[0].bytes, endorsed);
    s.chain_validated(true).unwrap();
    assert_eq!(s.current_phase(), Phase::Done);
}

#[test]
fn scenario_device_hash_mismatch_is_fatal() {
    let seeds = [0x11u8; 128];
    let mut s = start_session(1, seed_obj(&seeds));
    s.next_object().unwrap();
    s.objects_complete();
    let resp = s.response_body();
    s.build_response(resp);
    s.response_sent();

    let bogus = [0u8; 32];
    assert_eq!(
        s.device_hash_received(&bogus, true),
        Err(PersoError::IntegrityMismatch)
    );
    // The run is dead: chain validation is never reached.
    assert_eq!(
        s.current_phase(),
        Phase::Failed(PersoError::IntegrityMismatch)
    );
}

#[test]
fn scenario_malformed_tbs_fails_before_signing() {
    let uds_body = der_body(&[1, 2, 3, 4]);
    let blob = cert_obj(0, "UDS", &uds_body);
    let mut s = start_session(1, blob);
    s.next_object().unwrap();
    assert_eq!(
        s.endorsement_done(Err(EndorseFailure::Malformed)),
        Err(PersoError::MalformedCertificate)
    );
    assert_eq!(
        s.current_phase(),
        Phase::Failed(PersoError::MalformedCertificate)
    );
}

#[test]
fn signing_failure_is_reported() {
    let uds_body = der_body(&[1, 2, 3, 4]);
    let blob = cert_obj(0, "UDS", &uds_body);
    let mut s = start_session(1, blob);
    s.next_object().unwrap();
    assert_eq!(
        s.endorsement_done(Err(EndorseFailure::SigningFailed)),
        Err(PersoError::SigningFailed)
    );
    assert_eq!(s.current_phase(), Phase::Failed(PersoError::SigningFailed));
}

#[test]
fn key_service_failure_is_reported() {
    let uds_body = der_body(&[1, 2, 3, 4]);
    let blob = cert_obj(0, "UDS", &uds_body);
    let mut s = start_session(1, blob);
    s.next_object().unwrap();
    assert_eq!(
        s.endorsement_done(Err(EndorseFailure::KeyService)),
        Err(PersoError::KeyServiceError)
    );
    assert_eq!(s.current_phase(), Phase::Failed(PersoError::KeyServiceError));
}

#[test]
fn failed_reparse_check_is_fatal() {
    let body = der_body(&[5, 5, 5, 5]);
    let blob = cert_obj(1, "OWNER", &body);
    let mut s = start_session(1, blob);
    s.next_object().unwrap();
    assert_eq!(s.cert_checked(false), Err(PersoError::MalformedCertificate));
    assert_eq!(
        s.current_phase(),
        Phase::Failed(PersoError::MalformedCertificate)
    );
}

#[test]
fn seed_object_of_wrong_size_is_rejected() {
    let seeds = [0x22u8; 64];
    let mut s = start_session(1, seed_obj(&seeds));
    assert_eq!(s.next_object().err(), Some(PersoError::SizeMismatch));
    assert_eq!(s.current_phase(), Phase::Failed(PersoError::SizeMismatch));
}

#[test]
fn oversized_object_in_blob_is_rejected() {
    // Object header declares more bytes than the blob holds.
    let body = vec![0x20, 0x82, 0, 0];
    let mut s = start_session(1, body);
    assert_eq!(s.next_object().err(), Some(PersoError::SizeOverflow));
    assert_eq!(s.current_phase(), Phase::Failed(PersoError::SizeOverflow));
}

#[test]
fn response_capacity_is_a_hard_limit() {
    let uds_body = der_body(&[1, 2, 3, 4]);
    let mut blob = cert_obj(0, "A", &uds_body);
    blob.extend_from_slice(&cert_obj(0, "B", &uds_body));
    let mut s = start_session(2, blob);

    // Each endorsed certificate comes back 2500 bytes long: the second one
    // cannot fit the 4096-byte response buffer.
    let big = der_body(&vec![0x77u8; 2496]);
    assert_eq!(big.len(), 2500);

    s.next_object().unwrap();
    s.endorsement_done(Ok(big.clone())).unwrap();
    s.cert_checked(true).unwrap();

    s.next_object().unwrap();
    s.endorsement_done(Ok(big.clone())).unwrap();
    assert_eq!(s.cert_checked(true), Err(PersoError::CapacityExceeded));
    assert_eq!(
        s.current_phase(),
        Phase::Failed(PersoError::CapacityExceeded)
    );
}

#[test]
fn non_uds_endorsement_keeps_critical_extensions() {
    let body = der_body(&[1, 2, 3, 4]);
    let blob = cert_obj(0, "CDI", &body);
    let mut s = start_session(1, blob);
    s.next_object().unwrap();
    let endorsed = der_body(&[9, 9, 9, 9]);
    s.endorsement_done(Ok(endorsed)).unwrap();
    s.cert_checked(true).unwrap();
    s.objects_complete();
    let resp = s.response_body();
    s.build_response(resp);
    s.response_sent();
    let host = s.host_hash();
    s.device_hash_received(&host, false).unwrap();
    let records = s.chain_to_validate().unwrap();
    assert!(!records[0].ignore_critical);
    // A failing chain validation ends the run.
    assert_eq!(
        s.chain_validated(false),
        Err(PersoError::ChainValidationFailed)
    );
    assert_eq!(
        s.current_phase(),
        Phase::Failed(PersoError::ChainValidationFailed)
    );
}
