use attest_cert::cert::CERT_VALID_SECS;
use attest_cert::err::CertError;
use attest_cert::key::NistP256KeyPair;
use p256::ecdsa::signature::Verifier;

struct ParsedCert {
    tbs_raw: Vec<u8>,
    outer_sig_alg: Vec<u64>,
    sig_bits: Vec<u8>,
    version: u8,
    serial: u8,
    tbs_sig_alg: Vec<u64>,
    issuer_cn: String,
    not_before: Vec<u8>,
    not_after: Vec<u8>,
    subject_cn: String,
    spki_alg: Vec<u64>,
    spki_curve: Vec<u64>,
    pub_point: Vec<u8>,
    ext_oid: Vec<u64>,
    ext_payload: Vec<u8>,
}

fn read_common_name(r: yasna::BERReader) -> yasna::ASN1Result<(Vec<u64>, String)> {
    r.read_sequence(|r| {
        r.next().read_sequence(|r| {
            r.next().read_sequence(|r| {
                let oid = r.next().read_oid()?;
                let name = r.next().read_utf8string()?;
                Ok((oid.components().clone(), name))
            })
        })
    })
}

fn parse_cert(cert: &[u8]) -> ParsedCert {
    let (tbs_raw, outer_sig_alg, sig_bits) = yasna::parse_der(cert, |r| {
        r.read_sequence(|r| {
            let tbs_raw = r.next().read_der()?;
            let alg = r.next().read_sequence(|r| r.next().read_oid())?;
            let (sig_bits, _) = r.next().read_bitvec_bytes()?;
            Ok((tbs_raw, alg.components().clone(), sig_bits))
        })
    })
    .unwrap();
    let rest = yasna::parse_der(&tbs_raw, |r| {
        r.read_sequence(|r| {
            let version = r.next().read_u8()?;
            let serial = r.next().read_u8()?;
            let tbs_sig_alg = r.next().read_sequence(|r| r.next().read_oid())?;
            let (_, issuer_cn) = read_common_name(r.next())?;
            let (not_before, not_after) = r.next().read_sequence(|r| {
                let a = r.next().read_der()?;
                let b = r.next().read_der()?;
                Ok((a, b))
            })?;
            let (_, subject_cn) = read_common_name(r.next())?;
            let (spki_alg, spki_curve, pub_point) = r.next().read_sequence(|r| {
                let (a, c) = r.next().read_sequence(|r| {
                    let a = r.next().read_oid()?;
                    let c = r.next().read_oid()?;
                    Ok((a, c))
                })?;
                let (point, _) = r.next().read_bitvec_bytes()?;
                Ok((a.components().clone(), c.components().clone(), point))
            })?;
            let (ext_oid, ext_payload) = r.next().read_sequence(|r| {
                r.next().read_sequence(|r| {
                    let oid = r.next().read_oid()?;
                    let val = r.next().read_bytes()?;
                    Ok((oid.components().clone(), val))
                })
            })?;
            Ok((
                version,
                serial,
                tbs_sig_alg.components().clone(),
                issuer_cn,
                not_before,
                not_after,
                subject_cn,
                spki_alg,
                spki_curve,
                pub_point,
                ext_oid,
                ext_payload,
            ))
        })
    })
    .unwrap();
    ParsedCert {
        tbs_raw,
        outer_sig_alg,
        sig_bits,
        version: rest.0,
        serial: rest.1,
        tbs_sig_alg: rest.2,
        issuer_cn: rest.3,
        not_before: rest.4,
        not_after: rest.5,
        subject_cn: rest.6,
        spki_alg: rest.7,
        spki_curve: rest.8,
        pub_point: rest.9,
        ext_oid: rest.10,
        ext_payload: rest.11,
    }
}

fn left_pad_32(bytes: &[u8]) -> [u8; 32] {
    let trimmed: Vec<u8> = bytes.iter().copied().skip_while(|&b| b == 0).collect();
    assert!(trimmed.len() <= 32);
    let mut out = [0u8; 32];
    out[32 - trimmed.len()..].copy_from_slice(&trimmed);
    out
}

fn verify_signature(parsed: &ParsedCert) {
    let (r_bytes, s_bytes) = yasna::parse_der(&parsed.sig_bits, |r| {
        r.read_sequence(|r| {
            let (rb, rpos) = r.next().read_bigint_bytes()?;
            let (sb, spos) = r.next().read_bigint_bytes()?;
            assert!(rpos && spos);
            Ok((rb, sb))
        })
    })
    .unwrap();
    let vk = p256::ecdsa::VerifyingKey::from_sec1_bytes(&parsed.pub_point).unwrap();
    let sig =
        p256::ecdsa::Signature::from_scalars(left_pad_32(&r_bytes), left_pad_32(&s_bytes))
            .unwrap();
    vk.verify(&parsed.tbs_raw, &sig).unwrap();
}

#[test]
fn test_example_scenario() {
    let kp = NistP256KeyPair::new().unwrap();
    let payload = [0xDEu8, 0xAD, 0xBE, 0xEF];
    let cert = kp
        .create_cert_with_extension("enclave-issuer", "enclave-subject", &payload)
        .unwrap();
    let parsed = parse_cert(&cert);
    assert_eq!(parsed.version, 2);
    assert_eq!(parsed.serial, 1);
    assert_eq!(parsed.outer_sig_alg, vec![1, 2, 840, 10045, 4, 3, 2]);
    assert_eq!(parsed.tbs_sig_alg, vec![1, 2, 840, 10045, 4, 3, 2]);
    assert_eq!(parsed.issuer_cn, "enclave-issuer");
    assert_eq!(parsed.subject_cn, "enclave-subject");
    assert_eq!(parsed.spki_alg, vec![1, 2, 840, 10045, 2, 1]);
    assert_eq!(parsed.spki_curve, vec![1, 2, 840, 10045, 3, 1, 7]);
    assert_eq!(parsed.pub_point, kp.public_key_into_bytes());
    assert_eq!(parsed.ext_oid, vec![2, 16, 840, 1, 113730, 1, 13]);
    assert_eq!(parsed.ext_payload, payload.to_vec());
    verify_signature(&parsed);
}

#[test]
fn test_signature_verifies_at_fixed_time() {
    let kp = NistP256KeyPair::new().unwrap();
    let cert = kp
        .create_cert_with_extension_at("issuer", "subject", &[1, 2, 3], 1_700_000_000)
        .unwrap();
    let parsed = parse_cert(&cert);
    verify_signature(&parsed);
}

#[test]
fn test_validity_window_is_ninety_days() {
    let kp = NistP256KeyPair::new().unwrap();
    let cert = kp
        .create_cert_with_extension_at("a", "b", &[], 1_700_000_000)
        .unwrap();
    let parsed = parse_cert(&cert);
    assert_eq!(CERT_VALID_SECS, 90 * 86400);
    let mut expected_before = vec![0x17, 0x0D];
    expected_before.extend(b"231114221320Z");
    let mut expected_after = vec![0x17, 0x0D];
    expected_after.extend(b"240212221320Z");
    assert_eq!(parsed.not_before, expected_before);
    assert_eq!(parsed.not_after, expected_after);
}

#[test]
fn test_validity_window_at_epoch() {
    let kp = NistP256KeyPair::new().unwrap();
    let cert = kp.create_cert_with_extension_at("a", "b", &[9], 0).unwrap();
    let parsed = parse_cert(&cert);
    let mut expected_before = vec![0x17, 0x0D];
    expected_before.extend(b"700101000000Z");
    assert_eq!(parsed.not_before, expected_before);
}

#[test]
fn test_payload_fidelity_lengths() {
    let kp = NistP256KeyPair::new().unwrap();
    for payload in [vec![], vec![0x42u8], (0..1500u32).map(|i| (i % 251) as u8).collect()] {
        let cert = kp
            .create_cert_with_extension_at("i", "s", &payload, 1_700_000_000)
            .unwrap();
        let parsed = parse_cert(&cert);
        assert_eq!(parsed.ext_payload, payload);
        verify_signature(&parsed);
    }
}

#[test]
fn test_different_times_different_tbs() {
    let kp = NistP256KeyPair::new().unwrap();
    let c1 = kp
        .create_cert_with_extension_at("i", "s", &[7], 1_700_000_000)
        .unwrap();
    let c2 = kp
        .create_cert_with_extension_at("i", "s", &[7], 1_700_000_001)
        .unwrap();
    let p1 = parse_cert(&c1);
    let p2 = parse_cert(&c2);
    assert_ne!(p1.tbs_raw, p2.tbs_raw);
    verify_signature(&p1);
    verify_signature(&p2);
}

#[test]
fn test_time_out_of_range_is_rejected() {
    let kp = NistP256KeyPair::new().unwrap();
    let end: u64 = 2_524_608_000;
    let res = kp.create_cert_with_extension_at("i", "s", &[], end);
    assert_eq!(res.unwrap_err(), CertError::TimeOutOfRange);
    let res = kp.create_cert_with_extension_at("i", "s", &[], end - CERT_VALID_SECS);
    assert_eq!(res.unwrap_err(), CertError::TimeOutOfRange);
    let ok = kp.create_cert_with_extension_at("i", "s", &[], end - CERT_VALID_SECS - 1);
    assert!(ok.is_ok());
    let parsed = parse_cert(&ok.unwrap());
    let mut expected_after = vec![0x17, 0x0D];
    expected_after.extend(b"491231235959Z");
    assert_eq!(parsed.not_after, expected_after);
}

#[test]
fn test_calendar_conversion() {
    let c = attest_cert::utctime::utc_calendar(1_700_000_000).unwrap();
    assert_eq!(
        (c.year, c.month, c.day, c.hour, c.minute, c.second),
        (2023, 11, 14, 22, 13, 20)
    );
    let epoch = attest_cert::utctime::utc_calendar(0).unwrap();
    assert_eq!(
        (epoch.year, epoch.month, epoch.day, epoch.hour, epoch.minute, epoch.second),
        (1970, 1, 1, 0, 0, 0)
    );
}

#[test]
fn test_names_pass_through_verbatim() {
    let kp = NistP256KeyPair::new().unwrap();
    let cert = kp
        .create_cert_with_extension_at("", "Grüße-企业", &[0xAA], 1_700_000_000)
        .unwrap();
    let parsed = parse_cert(&cert);
    assert_eq!(parsed.issuer_cn, "");
    assert_eq!(parsed.subject_cn, "Grüße-企业");
    verify_signature(&parsed);
}

#[test]
fn test_fixed_time_cert_is_deterministic() {
    let kp = NistP256KeyPair::new().unwrap();
    let c1 = kp
        .create_cert_with_extension_at("i", "s", &[5, 6], 1_700_000_000)
        .unwrap();
    let c2 = kp
        .create_cert_with_extension_at("i", "s", &[5, 6], 1_700_000_000)
        .unwrap();
    assert_eq!(c1, c2);
}
