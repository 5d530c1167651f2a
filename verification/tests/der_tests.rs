use attest_cert::der::{
    der_bit_string, der_context_tag, der_octet_string, der_oid, der_sequence, der_small_integer,
    der_unsigned_integer, der_utf8_string,
};
use attest_cert::utctime::CalendarTime;

#[test]
fn test_small_integer() {
    assert_eq!(der_small_integer(0), vec![0x02, 0x01, 0x00]);
    assert_eq!(der_small_integer(127), vec![0x02, 0x01, 0x7F]);
}

#[test]
fn test_octet_string_short_and_long_form() {
    assert_eq!(der_octet_string(&[0xAB, 0xCD]), vec![0x04, 0x02, 0xAB, 0xCD]);
    let data = vec![0x55u8; 200];
    let der = der_octet_string(&data);
    assert_eq!(&der[..3], &[0x04, 0x81, 200]);
    assert_eq!(&der[3..], data.as_slice());
    let data = vec![0x66u8; 0x1234];
    let der = der_octet_string(&data);
    assert_eq!(&der[..4], &[0x04, 0x82, 0x12, 0x34]);
    let data = vec![0x77u8; 0x10000];
    let der = der_octet_string(&data);
    assert_eq!(&der[..5], &[0x04, 0x83, 0x01, 0x00, 0x00]);
}

#[test]
fn test_bit_string_prepends_unused_bits_byte() {
    assert_eq!(der_bit_string(&[0xF0]), vec![0x03, 0x02, 0x00, 0xF0]);
}

#[test]
fn test_utf8_string() {
    let der = der_utf8_string("hi");
    assert_eq!(der, vec![0x0C, 0x02, b'h', b'i']);
}

#[test]
fn test_sequence_and_context_tag() {
    let inner = der_small_integer(5);
    assert_eq!(der_sequence(inner.clone()), vec![0x30, 0x03, 0x02, 0x01, 0x05]);
    assert_eq!(der_context_tag(1, inner), vec![0xA1, 0x03, 0x02, 0x01, 0x05]);
}

#[test]
fn test_oid_encoding() {
    let arcs: Vec<u64> = vec![1, 2, 840, 10045, 2, 1];
    assert_eq!(
        der_oid(&arcs),
        vec![0x06, 0x07, 0x2A, 0x86, 0x48, 0xCE, 0x3D, 0x02, 0x01]
    );
    let arcs: Vec<u64> = vec![2, 16, 840, 1, 113730, 1, 13];
    assert_eq!(
        der_oid(&arcs),
        vec![0x06, 0x09, 0x60, 0x86, 0x48, 0x01, 0x86, 0xF8, 0x42, 0x01, 0x0D]
    );
}

#[test]
fn test_unsigned_integer_minimal_encoding() {
    assert_eq!(der_unsigned_integer(&[]), vec![0x02, 0x01, 0x00]);
    assert_eq!(der_unsigned_integer(&[0, 0, 0]), vec![0x02, 0x01, 0x00]);
    assert_eq!(der_unsigned_integer(&[0x01]), vec![0x02, 0x01, 0x01]);
    assert_eq!(der_unsigned_integer(&[0x00, 0x01]), vec![0x02, 0x01, 0x01]);
    assert_eq!(der_unsigned_integer(&[0x80]), vec![0x02, 0x02, 0x00, 0x80]);
    assert_eq!(
        der_unsigned_integer(&[0x00, 0x00, 0xFF, 0x10]),
        vec![0x02, 0x03, 0x00, 0xFF, 0x10]
    );
    assert_eq!(
        der_unsigned_integer(&[0x7F, 0x00]),
        vec![0x02, 0x02, 0x7F, 0x00]
    );
}

#[test]
fn test_utctime_formatting() {
    let c = CalendarTime { year: 2023, month: 11, day: 14, hour: 22, minute: 13, second: 20 };
    let der = attest_cert::utctime::der_utctime(&c);
    let mut expected = vec![0x17, 0x0D];
    expected.extend(b"231114221320Z");
    assert_eq!(der, expected);
    let c = CalendarTime { year: 1999, month: 1, day: 2, hour: 3, minute: 4, second: 5 };
    let der = attest_cert::utctime::der_utctime(&c);
    let mut expected = vec![0x17, 0x0D];
    expected.extend(b"990102030405Z");
    assert_eq!(der, expected);
}

#[test]
fn test_signature_value_der() {
    let r = [0x00u8; 31].iter().copied().chain([0x05]).collect::<Vec<u8>>();
    let mut s = vec![0x80u8];
    s.extend(vec![0x11u8; 31]);
    let der = attest_cert::cert::signature_value_der(&r, &s);
    let mut expected = vec![0x30, 0x26, 0x02, 0x01, 0x05, 0x02, 0x21, 0x00];
    expected.extend(&s);
    assert_eq!(der, expected);
}
