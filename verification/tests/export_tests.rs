use attest_cert::key::NistP256KeyPair;

fn fixed_key() -> NistP256KeyPair {
    let r: Vec<u8> = (1..=32).collect();
    let gx: Vec<u8> = (101..=132).collect();
    let gy: Vec<u8> = (201..=232).collect();
    NistP256KeyPair::from_le_parts(r, gx, gy)
}

fn reversed(v: &[u8]) -> Vec<u8> {
    let mut out = v.to_vec();
    out.reverse();
    out
}

#[test]
fn test_export_is_deterministic() {
    let kp = NistP256KeyPair::new().unwrap();
    let a = kp.private_key_into_der();
    let b = kp.private_key_into_der();
    assert_eq!(a, b);
}

#[test]
fn test_export_fixed_key_deterministic() {
    let a = fixed_key().private_key_into_der();
    let b = fixed_key().private_key_into_der();
    assert_eq!(a, b);
}

#[test]
fn test_public_key_bytes_layout() {
    let kp = fixed_key();
    let pk = kp.public_key_into_bytes();
    assert_eq!(pk.len(), 65);
    assert_eq!(pk[0], 4);
    let gx: Vec<u8> = (101..=132).collect();
    let gy: Vec<u8> = (201..=232).collect();
    assert_eq!(&pk[1..33], reversed(&gx).as_slice());
    assert_eq!(&pk[33..65], reversed(&gy).as_slice());
}

#[test]
fn test_export_exact_bytes() {
    let kp = fixed_key();
    let der = kp.private_key_into_der();

    let prv_be = reversed(&(1..=32).collect::<Vec<u8>>());
    let mut pub_bytes = vec![4u8];
    pub_bytes.extend(reversed(&(101..=132).collect::<Vec<u8>>()));
    pub_bytes.extend(reversed(&(201..=232).collect::<Vec<u8>>()));

    let mut inner = vec![0x30, 0x6B, 0x02, 0x01, 0x01, 0x04, 0x20];
    inner.extend(&prv_be);
    inner.extend([0xA1, 0x44, 0x03, 0x42, 0x00]);
    inner.extend(&pub_bytes);
    assert_eq!(inner.len(), 109);

    let mut expected = vec![0x30, 0x81, 0x87, 0x02, 0x01, 0x00];
    expected.extend([0x30, 0x13]);
    expected.extend([0x06, 0x07, 0x2A, 0x86, 0x48, 0xCE, 0x3D, 0x02, 0x01]);
    expected.extend([0x06, 0x08, 0x2A, 0x86, 0x48, 0xCE, 0x3D, 0x03, 0x01, 0x07]);
    expected.extend([0x04, 0x6D]);
    expected.extend(&inner);
    assert_eq!(der, expected);
}

#[test]
fn test_export_parses_and_round_trips() {
    let kp = NistP256KeyPair::new().unwrap();
    let der = kp.private_key_into_der();
    let pub_bytes = kp.public_key_into_bytes();
    let prv_be = kp.private_key_into_bytes();

    let (version, alg_oid, curve_oid, inner) = yasna::parse_der(&der, |r| {
        r.read_sequence(|r| {
            let version = r.next().read_u8()?;
            let (alg, curve) = r.next().read_sequence(|r| {
                let a = r.next().read_oid()?;
                let c = r.next().read_oid()?;
                Ok((a, c))
            })?;
            let inner = r.next().read_bytes()?;
            Ok((version, alg, curve, inner))
        })
    })
    .unwrap();
    assert_eq!(version, 0);
    assert_eq!(alg_oid.components().as_slice(), &[1, 2, 840, 10045, 2, 1]);
    assert_eq!(curve_oid.components().as_slice(), &[1, 2, 840, 10045, 3, 1, 7]);

    let (iversion, scalar, point, bit_len) = yasna::parse_der(&inner, |r| {
        r.read_sequence(|r| {
            let v = r.next().read_u8()?;
            let scalar = r.next().read_bytes()?;
            let (point, bit_len) = r.next().read_tagged(yasna::Tag::context(1), |r| {
                r.read_bitvec_bytes()
            })?;
            Ok((v, scalar, point, bit_len))
        })
    })
    .unwrap();
    assert_eq!(iversion, 1);
    assert_eq!(bit_len, 520);
    assert_eq!(scalar.len(), 32);
    assert_eq!(scalar, prv_be);
    assert_eq!(point.len(), 65);
    assert_eq!(point, pub_bytes);
}
