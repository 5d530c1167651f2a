//! The laws of the builder, stated over the writer and reader
//! specifications and proved once for all inputs.

use vstd::prelude::*;

use crate::cert::{
    spec_certificate_der, spec_extension_der, spec_tbs_der, spec_tbs_fields,
};
use crate::der::{
    lemma_oid_len, lemma_tlv_len, spec_bit_string, spec_octet_string, spec_oid, spec_oid_body,
    spec_sequence, spec_small_integer, spec_tlv, spec_utf8_string,
};
use crate::key::{spec_ec_private_key_inner, spec_private_key_der};
use crate::oids::{spec_comment_arcs, spec_ec_public_key_arcs, spec_prime256v1_arcs};
use crate::parse::{
    lemma_parse_tlv_exact, lemma_parse_tlv_inverse, spec_parse_tlv,
};

verus! {

/// Reads one triple that must carry `tag` and fill `s` completely.
pub open spec fn spec_read_exact(s: Seq<u8>, tag: u8) -> Option<Seq<u8>> {
    match spec_parse_tlv(s) {
        Some(t) => if t.0 == tag && t.2.len() == 0 {
            Some(t.1)
        } else {
            None
        },
        None => None,
    }
}

/// Reads one triple that must carry `tag`; yields its value and the rest.
pub open spec fn spec_read_field(s: Seq<u8>, tag: u8) -> Option<(Seq<u8>, Seq<u8>)> {
    match spec_parse_tlv(s) {
        Some(t) => if t.0 == tag {
            Some((t.1, t.2))
        } else {
            None
        },
        None => None,
    }
}

/// What a DER reader recovers from an inner ECPrivateKey structure: the
/// private scalar and the public point (after the unused-bits byte).
pub open spec fn spec_parse_ec_private_key(inner: Seq<u8>) -> Option<(Seq<u8>, Seq<u8>)> {
    match spec_read_exact(inner, 0x30) {
        Some(body) => match spec_read_field(body, 0x02) {
            Some(ver) => if ver.0 != seq![1u8] {
                None
            } else {
                match spec_read_field(ver.1, 0x04) {
                    Some(prv) => match spec_read_exact(prv.1, 0xA1) {
                        Some(cbody) => match spec_read_exact(cbody, 0x03) {
                            Some(bits) => if bits.len() >= 1 && bits[0] == 0 {
                                Some((prv.0, bits.subrange(1, bits.len() as int)))
                            } else {
                                None
                            },
                            None => None,
                        },
                        None => None,
                    },
                    None => None,
                }
            },
            None => None,
        },
        None => None,
    }
}

/// What a DER reader recovers from an exported private key: the algorithm
/// identifier's two OID contents, the private scalar, and the public point.
pub open spec fn spec_parse_private_key(s: Seq<u8>) -> Option<(Seq<u8>, Seq<u8>, Seq<u8>, Seq<u8>)> {
    match spec_read_exact(s, 0x30) {
        Some(body) => match spec_read_field(body, 0x02) {
            Some(ver) => if ver.0 != seq![0u8] {
                None
            } else {
                match spec_read_field(ver.1, 0x30) {
                    Some(alg) => match spec_read_field(alg.0, 0x06) {
                        Some(oid1) => match spec_read_exact(oid1.1, 0x06) {
                            Some(oid2) => match spec_read_exact(alg.1, 0x04) {
                                Some(octets) => match spec_parse_ec_private_key(octets) {
                                    Some(keys) => Some((oid1.0, oid2, keys.0, keys.1)),
                                    None => None,
                                },
                                None => None,
                            },
                            None => None,
                        },
                        None => None,
                    },
                    None => None,
                }
            },
            None => None,
        },
        None => None,
    }
}

proof fn lemma_ec_private_key_round_trip(priv_be: Seq<u8>, pub_bytes: Seq<u8>)
    requires
        priv_be.len() == 32,
        pub_bytes.len() == 65,
    ensures
        spec_parse_ec_private_key(spec_ec_private_key_inner(priv_be, pub_bytes)) == Some(
            (priv_be, pub_bytes),
        ),
{
    let bits = spec_bit_string(pub_bytes);
    let ctx = spec_tlv(0xA1, bits);
    let body = spec_small_integer(1) + spec_octet_string(priv_be) + ctx;
    lemma_parse_tlv_exact(0x30, body);
    assert(body =~= spec_tlv(0x02, seq![1u8]) + (spec_octet_string(priv_be) + ctx));
    lemma_parse_tlv_inverse(0x02, seq![1u8], spec_octet_string(priv_be) + ctx);
    assert(spec_octet_string(priv_be) + ctx =~= spec_tlv(0x04, priv_be) + ctx);
    lemma_parse_tlv_inverse(0x04, priv_be, ctx);
    lemma_parse_tlv_exact(0xA1, bits);
    lemma_parse_tlv_exact(0x03, seq![0u8] + pub_bytes);
    assert((seq![0u8] + pub_bytes).subrange(1, (seq![0u8] + pub_bytes).len() as int)
        =~= pub_bytes);
}

spec fn pk_oids_cat() -> Seq<u8> {
    spec_oid(spec_ec_public_key_arcs()) + spec_oid(spec_prime256v1_arcs())
}

spec fn pk_octets(priv_be: Seq<u8>, pub_bytes: Seq<u8>) -> Seq<u8> {
    spec_octet_string(spec_ec_private_key_inner(priv_be, pub_bytes))
}

spec fn pk_body(priv_be: Seq<u8>, pub_bytes: Seq<u8>) -> Seq<u8> {
    spec_small_integer(0) + spec_sequence(pk_oids_cat()) + pk_octets(priv_be, pub_bytes)
}

#[verifier::rlimit(100)]
#[verifier::spinoff_prover]
proof fn lemma_private_key_outer_parse(priv_be: Seq<u8>, pub_bytes: Seq<u8>)
    requires
        priv_be.len() == 32,
        pub_bytes.len() == 65,
    ensures
        spec_parse_tlv(spec_private_key_der(priv_be, pub_bytes)) == Some(
            (0x30u8, pk_body(priv_be, pub_bytes), Seq::<u8>::empty()),
        ),
        spec_parse_tlv(pk_body(priv_be, pub_bytes)) == Some(
            (0x02u8, seq![0u8], spec_sequence(pk_oids_cat()) + pk_octets(priv_be, pub_bytes)),
        ),
        spec_parse_tlv(spec_sequence(pk_oids_cat()) + pk_octets(priv_be, pub_bytes)) == Some(
            (0x30u8, pk_oids_cat(), pk_octets(priv_be, pub_bytes)),
        ),
        spec_parse_tlv(pk_oids_cat()) == Some(
            (
                0x06u8,
                spec_oid_body(spec_ec_public_key_arcs()),
                spec_oid(spec_prime256v1_arcs()),
            ),
        ),
        spec_parse_tlv(spec_oid(spec_prime256v1_arcs())) == Some(
            (0x06u8, spec_oid_body(spec_prime256v1_arcs()), Seq::<u8>::empty()),
        ),
        spec_parse_tlv(pk_octets(priv_be, pub_bytes)) == Some(
            (
                0x04u8,
                spec_ec_private_key_inner(priv_be, pub_bytes),
                Seq::<u8>::empty(),
            ),
        ),
{
    lemma_oid_len(spec_ec_public_key_arcs());
    lemma_oid_len(spec_prime256v1_arcs());
    let oid1 = spec_oid(spec_ec_public_key_arcs());
    let oid2 = spec_oid(spec_prime256v1_arcs());
    let alg = spec_sequence(oid1 + oid2);
    let inner = spec_ec_private_key_inner(priv_be, pub_bytes);
    let octets = spec_octet_string(inner);
    let body = spec_small_integer(0) + alg + octets;
    assert(spec_parse_tlv(spec_sequence(body)) == Some((0x30u8, body, Seq::<u8>::empty()))) by {
        lemma_tlv_len(0x04, inner);
        lemma_parse_tlv_exact(0x30, body);
    }
    assert(spec_parse_tlv(body) == Some((0x02u8, seq![0u8], alg + octets))) by {
        assert(body =~= spec_tlv(0x02, seq![0u8]) + (alg + octets));
        lemma_parse_tlv_inverse(0x02, seq![0u8], alg + octets);
    }
    assert(spec_parse_tlv(alg + octets) == Some((0x30u8, oid1 + oid2, octets))) by {
        assert(alg + octets =~= spec_tlv(0x30, oid1 + oid2) + octets);
        lemma_parse_tlv_inverse(0x30, oid1 + oid2, octets);
    }
    assert(spec_parse_tlv(oid1 + oid2) == Some(
        (0x06u8, spec_oid_body(spec_ec_public_key_arcs()), oid2),
    )) by {
        assert(oid1 + oid2 =~= spec_tlv(0x06, spec_oid_body(spec_ec_public_key_arcs())) + oid2);
        lemma_parse_tlv_inverse(0x06, spec_oid_body(spec_ec_public_key_arcs()), oid2);
    }
    assert(spec_parse_tlv(oid2) == Some(
        (0x06u8, spec_oid_body(spec_prime256v1_arcs()), Seq::<u8>::empty()),
    )) by {
        lemma_parse_tlv_exact(0x06, spec_oid_body(spec_prime256v1_arcs()));
    }
    assert(spec_parse_tlv(octets) == Some((0x04u8, inner, Seq::<u8>::empty()))) by {
        lemma_parse_tlv_exact(0x04, inner);
    }
}

/// Round trip of the private-key export: a DER reader recovers the EC
/// algorithm identifier, the curve identifier, and the key material
/// byte for byte.
#[verifier::rlimit(100)]
#[verifier::spinoff_prover]
pub proof fn lemma_private_key_der_round_trip(priv_be: Seq<u8>, pub_bytes: Seq<u8>)
    requires
        priv_be.len() == 32,
        pub_bytes.len() == 65,
    ensures
        spec_parse_private_key(spec_private_key_der(priv_be, pub_bytes)) == Some(
            (
                spec_oid_body(spec_ec_public_key_arcs()),
                spec_oid_body(spec_prime256v1_arcs()),
                priv_be,
                pub_bytes,
            ),
        ),
{
    lemma_private_key_outer_parse(priv_be, pub_bytes);
    lemma_ec_private_key_round_trip(priv_be, pub_bytes);
    let s = spec_private_key_der(priv_be, pub_bytes);
    let body = pk_body(priv_be, pub_bytes);
    let rest1 = spec_sequence(pk_oids_cat()) + pk_octets(priv_be, pub_bytes);
    assert(spec_read_exact(s, 0x30) == Some(body));
    assert(spec_read_field(body, 0x02) == Some((seq![0u8], rest1)));
    assert(spec_read_field(rest1, 0x30) == Some(
        (pk_oids_cat(), pk_octets(priv_be, pub_bytes)),
    ));
    assert(spec_read_field(pk_oids_cat(), 0x06) == Some(
        (spec_oid_body(spec_ec_public_key_arcs()), spec_oid(spec_prime256v1_arcs())),
    ));
    assert(spec_read_exact(spec_oid(spec_prime256v1_arcs()), 0x06) == Some(
        spec_oid_body(spec_prime256v1_arcs()),
    ));
    assert(spec_read_exact(pk_octets(priv_be, pub_bytes), 0x04) == Some(
        spec_ec_private_key_inner(priv_be, pub_bytes),
    ));
}

/// Skips `n` triples, yielding what follows them.
pub open spec fn spec_skip_n(s: Seq<u8>, n: nat) -> Option<Seq<u8>>
    decreases n,
{
    if n == 0 {
        Some(s)
    } else {
        match spec_parse_tlv(s) {
            Some(t) => spec_skip_n(t.2, (n - 1) as nat),
            None => None,
        }
    }
}

/// What a DER reader recovers as the single extension of a certificate:
/// the extension identifier's OID content and the raw payload.
pub open spec fn spec_parse_cert_payload(s: Seq<u8>) -> Option<(Seq<u8>, Seq<u8>)> {
    match spec_read_exact(s, 0x30) {
        Some(cb) => match spec_read_field(cb, 0x30) {
            Some(tbs) => match spec_skip_n(tbs.0, 7) {
                Some(rem) => match spec_read_exact(rem, 0x30) {
                    Some(outer) => match spec_read_exact(outer, 0x30) {
                        Some(eb) => match spec_read_field(eb, 0x06) {
                            Some(oid) => match spec_read_exact(oid.1, 0x04) {
                                Some(payload) => Some((oid.0, payload)),
                                None => None,
                            },
                            None => None,
                        },
                        None => None,
                    },
                    None => None,
                },
                None => None,
            },
            None => None,
        },
        None => None,
    }
}

proof fn lemma_extension_round_trip(payload: Seq<u8>)
    requires
        payload.len() <= 0x3FFF_FFFF,
    ensures
        spec_extension_der(payload).len() < 0x4000_0000 + 200,
        spec_read_exact(spec_extension_der(payload), 0x30) matches Some(outer)
            && spec_read_exact(outer, 0x30) matches Some(eb) && spec_read_field(eb, 0x06)
            matches Some(oid) && oid.0 == spec_oid_body(spec_comment_arcs()) && spec_read_exact(
            oid.1,
            0x04,
        ) == Some(payload),
{
    lemma_oid_len(spec_comment_arcs());
    let oidc = spec_oid(spec_comment_arcs());
    let oct = spec_octet_string(payload);
    lemma_tlv_len(0x04, payload);
    let eb = oidc + oct;
    lemma_tlv_len(0x30, eb);
    let outer = spec_sequence(eb);
    lemma_tlv_len(0x30, outer);
    lemma_parse_tlv_exact(0x30, outer);
    lemma_parse_tlv_exact(0x30, eb);
    assert(eb =~= spec_tlv(0x06, spec_oid_body(spec_comment_arcs())) + oct);
    lemma_parse_tlv_inverse(0x06, spec_oid_body(spec_comment_arcs()), oct);
    lemma_parse_tlv_exact(0x04, payload);
}

#[verifier::rlimit(100)]
proof fn lemma_tbs_fields_skip(
    pub_bytes: Seq<u8>,
    issuer_utf8: Seq<u8>,
    subject_utf8: Seq<u8>,
    payload: Seq<u8>,
    issue: crate::utctime::CalendarTime,
    expire: crate::utctime::CalendarTime,
)
    requires
        pub_bytes.len() == 65,
        issuer_utf8.len() <= 0x3FFF_FFFF,
        subject_utf8.len() <= 0x3FFF_FFFF,
        payload.len() <= 0x3FFF_FFFF,
    ensures
        spec_skip_n(
            spec_tbs_fields(pub_bytes, issuer_utf8, subject_utf8, payload, issue, expire),
            7,
        ) == Some(spec_extension_der(payload)),
        spec_tbs_fields(pub_bytes, issuer_utf8, subject_utf8, payload, issue, expire).len()
            < 0xC100_0000,
{
    let fields = spec_tbs_fields(pub_bytes, issuer_utf8, subject_utf8, payload, issue, expire);
    let f1 = spec_small_integer(2);
    let f2 = spec_small_integer(1);
    let f3 = crate::cert::spec_algorithm_der();
    let f4 = crate::cert::spec_name_der(issuer_utf8);
    let f5 = crate::cert::spec_validity_der(issue, expire);
    let f6 = crate::cert::spec_name_der(subject_utf8);
    let f7 = crate::cert::spec_spki_der(pub_bytes);
    let f8 = spec_extension_der(payload);

    lemma_oid_len(crate::oids::spec_ecdsa_with_sha256_arcs());
    lemma_oid_len(crate::oids::spec_common_name_arcs());
    lemma_oid_len(spec_ec_public_key_arcs());
    lemma_oid_len(spec_prime256v1_arcs());
    lemma_oid_len(spec_comment_arcs());
    lemma_tlv_len(0x0C, issuer_utf8);
    lemma_tlv_len(0x0C, subject_utf8);
    let attr_i = spec_oid(crate::oids::spec_common_name_arcs()) + spec_utf8_string(issuer_utf8);
    lemma_tlv_len(0x30, attr_i);
    lemma_tlv_len(0x30, spec_sequence(attr_i));
    lemma_tlv_len(0x30, spec_sequence(spec_sequence(attr_i)));
    let attr_s = spec_oid(crate::oids::spec_common_name_arcs()) + spec_utf8_string(subject_utf8);
    lemma_tlv_len(0x30, attr_s);
    lemma_tlv_len(0x30, spec_sequence(attr_s));
    lemma_tlv_len(0x30, spec_sequence(spec_sequence(attr_s)));
    let spki_alg = spec_oid(spec_ec_public_key_arcs()) + spec_oid(spec_prime256v1_arcs());
    lemma_tlv_len(0x30, spki_alg);
    lemma_tlv_len(0x03, seq![0u8] + pub_bytes);
    lemma_tlv_len(0x30, spec_sequence(spki_alg) + spec_bit_string(pub_bytes));
    lemma_tlv_len(0x04, payload);
    let eb = spec_oid(spec_comment_arcs()) + spec_octet_string(payload);
    lemma_tlv_len(0x30, eb);
    lemma_tlv_len(0x30, spec_sequence(eb));
    lemma_tlv_len(0x30, spec_oid(crate::oids::spec_ecdsa_with_sha256_arcs()));

    let r7 = f8;
    let r6 = f7 + r7;
    let r5 = f6 + r6;
    let r4 = f5 + r5;
    let r3 = f4 + r4;
    let r2 = f3 + r3;
    let r1 = f2 + r2;
    assert(fields =~= f1 + r1);
    assert(r1 =~= f2 + r2);
    lemma_parse_tlv_inverse(0x02, seq![2u8], r1);
    lemma_parse_tlv_inverse(0x02, seq![1u8], r2);
    lemma_parse_tlv_inverse(0x30, spec_oid(crate::oids::spec_ecdsa_with_sha256_arcs()), r3);
    lemma_parse_tlv_inverse(0x30, spec_sequence(spec_sequence(attr_i)), r4);
    lemma_parse_tlv_inverse(0x17, crate::utctime::spec_utctime_body(issue), Seq::<u8>::empty());
    let vbody = crate::utctime::spec_utctime(issue) + crate::utctime::spec_utctime(expire);
    lemma_tlv_len(0x30, vbody);
    lemma_parse_tlv_inverse(0x30, vbody, r5);
    lemma_parse_tlv_inverse(0x30, spec_sequence(spec_sequence(attr_s)), r6);
    lemma_parse_tlv_inverse(0x30, spec_sequence(spki_alg) + spec_bit_string(pub_bytes), r7);
    assert(spec_skip_n(fields, 7) == spec_skip_n(r1, 6));
    assert(spec_skip_n(r1, 6) == spec_skip_n(r2, 5));
    assert(spec_skip_n(r2, 5) == spec_skip_n(r3, 4));
    assert(spec_skip_n(r3, 4) == spec_skip_n(r4, 3));
    assert(spec_skip_n(r4, 3) == spec_skip_n(r5, 2));
    assert(spec_skip_n(r5, 2) == spec_skip_n(r6, 1));
    assert(spec_skip_n(r6, 1) == spec_skip_n(r7, 0));
}

proof fn lemma_cert_lens(
    pub_bytes: Seq<u8>,
    issuer_utf8: Seq<u8>,
    subject_utf8: Seq<u8>,
    payload: Seq<u8>,
    issue: crate::utctime::CalendarTime,
    expire: crate::utctime::CalendarTime,
    sr: Seq<u8>,
    ss: Seq<u8>,
)
    requires
        pub_bytes.len() == 65,
        issuer_utf8.len() <= 0x3FFF_FFFF,
        subject_utf8.len() <= 0x3FFF_FFFF,
        payload.len() <= 0x3FFF_FFFF,
        sr.len() == 32,
        ss.len() == 32,
    ensures
        spec_tbs_fields(pub_bytes, issuer_utf8, subject_utf8, payload, issue, expire).len()
            < 0xC100_0000,
        crate::cert::spec_algorithm_der().len() < 0x100,
        spec_bit_string(crate::cert::spec_signature_value_der(sr, ss)).len() < 0x1000,
{
    lemma_tbs_fields_skip(pub_bytes, issuer_utf8, subject_utf8, payload, issue, expire);
    lemma_oid_len(crate::oids::spec_ecdsa_with_sha256_arcs());
    lemma_tlv_len(0x30, spec_oid(crate::oids::spec_ecdsa_with_sha256_arcs()));
    crate::der::lemma_trim_len(sr);
    crate::der::lemma_trim_len(ss);
    lemma_tlv_len(0x02, crate::der::spec_uint_content(sr));
    lemma_tlv_len(0x02, crate::der::spec_uint_content(ss));
    let sigval = crate::cert::spec_signature_value_der(sr, ss);
    lemma_tlv_len(
        0x30,
        crate::der::spec_unsigned_integer(sr) + crate::der::spec_unsigned_integer(ss),
    );
    lemma_tlv_len(0x03, seq![0u8] + sigval);
}

#[verifier::rlimit(100)]
proof fn lemma_cert_outer_parse(
    pub_bytes: Seq<u8>,
    issuer_utf8: Seq<u8>,
    subject_utf8: Seq<u8>,
    payload: Seq<u8>,
    issue: crate::utctime::CalendarTime,
    expire: crate::utctime::CalendarTime,
    sr: Seq<u8>,
    ss: Seq<u8>,
)
    requires
        spec_tbs_fields(pub_bytes, issuer_utf8, subject_utf8, payload, issue, expire).len()
            < 0xC100_0000,
        crate::cert::spec_algorithm_der().len() < 0x100,
        spec_bit_string(crate::cert::spec_signature_value_der(sr, ss)).len() < 0x1000,
    ensures
        ({
            let fields = spec_tbs_fields(
                pub_bytes,
                issuer_utf8,
                subject_utf8,
                payload,
                issue,
                expire,
            );
            let tbs = spec_tbs_der(pub_bytes, issuer_utf8, subject_utf8, payload, issue, expire);
            let alg = crate::cert::spec_algorithm_der();
            let bits = spec_bit_string(crate::cert::spec_signature_value_der(sr, ss));
            let cb = tbs + alg + bits;
            spec_read_exact(spec_certificate_der(tbs, sr, ss), 0x30) == Some(cb)
                && spec_read_field(cb, 0x30) == Some((fields, alg + bits))
        }),
{
    let fields = spec_tbs_fields(pub_bytes, issuer_utf8, subject_utf8, payload, issue, expire);
    let tbs = spec_tbs_der(pub_bytes, issuer_utf8, subject_utf8, payload, issue, expire);
    let alg = crate::cert::spec_algorithm_der();
    let sigval = crate::cert::spec_signature_value_der(sr, ss);
    let bits = spec_bit_string(sigval);
    let cb = tbs + alg + bits;
    assert(cb.len() < 0x1_0000_0000) by {
        lemma_tlv_len(0x30, fields);
    }
    assert(spec_parse_tlv(spec_sequence(cb)) == Some((0x30u8, cb, Seq::<u8>::empty()))) by {
        lemma_parse_tlv_exact(0x30, cb);
    }
    assert(spec_parse_tlv(cb) == Some((0x30u8, fields, alg + bits))) by {
        assert(cb =~= spec_tlv(0x30, fields) + (alg + bits));
        lemma_parse_tlv_inverse(0x30, fields, alg + bits);
    }
}

/// Round trip of the certificate: a DER reader recovers the extension's
/// identifier and the payload byte for byte, for any payload length the
/// builder accepts.
#[verifier::rlimit(100)]
pub proof fn lemma_certificate_payload_round_trip(
    pub_bytes: Seq<u8>,
    issuer_utf8: Seq<u8>,
    subject_utf8: Seq<u8>,
    payload: Seq<u8>,
    issue: crate::utctime::CalendarTime,
    expire: crate::utctime::CalendarTime,
    sr: Seq<u8>,
    ss: Seq<u8>,
)
    requires
        pub_bytes.len() == 65,
        issuer_utf8.len() <= 0x3FFF_FFFF,
        subject_utf8.len() <= 0x3FFF_FFFF,
        payload.len() <= 0x3FFF_FFFF,
        sr.len() == 32,
        ss.len() == 32,
    ensures
        spec_parse_cert_payload(
            spec_certificate_der(
                spec_tbs_der(pub_bytes, issuer_utf8, subject_utf8, payload, issue, expire),
                sr,
                ss,
            ),
        ) == Some((spec_oid_body(spec_comment_arcs()), payload)),
{
    let fields = spec_tbs_fields(pub_bytes, issuer_utf8, subject_utf8, payload, issue, expire);
    let tbs = spec_tbs_der(pub_bytes, issuer_utf8, subject_utf8, payload, issue, expire);
    let alg = crate::cert::spec_algorithm_der();
    let sigval = crate::cert::spec_signature_value_der(sr, ss);
    let bits = spec_bit_string(sigval);
    let cb = tbs + alg + bits;
    lemma_cert_lens(pub_bytes, issuer_utf8, subject_utf8, payload, issue, expire, sr, ss);
    lemma_cert_outer_parse(pub_bytes, issuer_utf8, subject_utf8, payload, issue, expire, sr, ss);
    lemma_tbs_fields_skip(pub_bytes, issuer_utf8, subject_utf8, payload, issue, expire);
    lemma_extension_round_trip(payload);
}

/// Determinism of the private-key export: the output is a function of the
/// key material alone, so two exports of one key pair are byte-identical.
pub proof fn lemma_export_deterministic(
    kp: &crate::key::NistP256KeyPair,
    first: Seq<u8>,
    second: Seq<u8>,
)
    requires
        first == spec_private_key_der(kp.priv_le().reverse(), kp.spec_public_key_bytes()),
        second == spec_private_key_der(kp.priv_le().reverse(), kp.spec_public_key_bytes()),
    ensures
        first == second,
{
}

/// The validity field pins the clock reading: two to-be-signed structures
/// built from the same inputs at different issue times differ, because
/// their UTCTime fields differ.  The signing primitive is deterministic
/// per message (identical to-be-signed bytes would give identical
/// signatures), so differing to-be-signed bytes are also what makes the
/// signature values differ.
#[verifier::rlimit(100)]
pub proof fn lemma_tbs_time_sensitivity(
    pub_bytes: Seq<u8>,
    issuer_utf8: Seq<u8>,
    subject_utf8: Seq<u8>,
    payload: Seq<u8>,
    i1: crate::utctime::CalendarTime,
    e1: crate::utctime::CalendarTime,
    i2: crate::utctime::CalendarTime,
    e2: crate::utctime::CalendarTime,
)
    requires
        pub_bytes.len() == 65,
        issuer_utf8.len() <= 0x3FFF_FFFF,
        subject_utf8.len() <= 0x3FFF_FFFF,
        payload.len() <= 0x3FFF_FFFF,
        i1.wf(),
        e1.wf(),
        i2.wf(),
        e2.wf(),
        1970 <= i1.year <= 2049,
        1970 <= i2.year <= 2049,
        crate::utctime::spec_unix_secs(i1) != crate::utctime::spec_unix_secs(i2),
    ensures
        spec_tbs_der(pub_bytes, issuer_utf8, subject_utf8, payload, i1, e1) != spec_tbs_der(
            pub_bytes,
            issuer_utf8,
            subject_utf8,
            payload,
            i2,
            e2,
        ),
{
    if spec_tbs_der(pub_bytes, issuer_utf8, subject_utf8, payload, i1, e1) == spec_tbs_der(
        pub_bytes,
        issuer_utf8,
        subject_utf8,
        payload,
        i2,
        e2,
    ) {
        lemma_equal_tbs_equal_validity(pub_bytes, issuer_utf8, subject_utf8, payload, i1, e1, i2, e2);
        crate::utctime::lemma_utctime_body_injective(i1, i2);
        assert(false);
    }
}

#[verifier::rlimit(100)]
#[verifier::spinoff_prover]
proof fn lemma_equal_tbs_equal_validity(
    pub_bytes: Seq<u8>,
    issuer_utf8: Seq<u8>,
    subject_utf8: Seq<u8>,
    payload: Seq<u8>,
    i1: crate::utctime::CalendarTime,
    e1: crate::utctime::CalendarTime,
    i2: crate::utctime::CalendarTime,
    e2: crate::utctime::CalendarTime,
)
    requires
        pub_bytes.len() == 65,
        issuer_utf8.len() <= 0x3FFF_FFFF,
        subject_utf8.len() <= 0x3FFF_FFFF,
        payload.len() <= 0x3FFF_FFFF,
        i1.wf(),
        e1.wf(),
        i2.wf(),
        e2.wf(),
        1950 <= i1.year < 2050,
        1950 <= i2.year < 2050,
        spec_tbs_der(pub_bytes, issuer_utf8, subject_utf8, payload, i1, e1) == spec_tbs_der(
            pub_bytes,
            issuer_utf8,
            subject_utf8,
            payload,
            i2,
            e2,
        ),
    ensures
        crate::utctime::spec_utctime_body(i1) == crate::utctime::spec_utctime_body(i2),
{
    let zeros = Seq::<u8>::new(32, |i: int| 0u8);
    let fields1 = spec_tbs_fields(pub_bytes, issuer_utf8, subject_utf8, payload, i1, e1);
    let fields2 = spec_tbs_fields(pub_bytes, issuer_utf8, subject_utf8, payload, i2, e2);
    assert(fields1 == fields2) by {
        lemma_cert_lens(pub_bytes, issuer_utf8, subject_utf8, payload, i1, e1, zeros, zeros);
        lemma_cert_lens(pub_bytes, issuer_utf8, subject_utf8, payload, i2, e2, zeros, zeros);
        lemma_parse_tlv_exact(0x30, fields1);
        lemma_parse_tlv_exact(0x30, fields2);
    }
    let f1 = spec_small_integer(2);
    let f2 = spec_small_integer(1);
    let f3 = crate::cert::spec_algorithm_der();
    let f4 = crate::cert::spec_name_der(issuer_utf8);
    let f6 = crate::cert::spec_name_der(subject_utf8);
    let f7 = crate::cert::spec_spki_der(pub_bytes);
    let f8 = spec_extension_der(payload);
    let head = f1 + f2 + f3 + f4;
    let v1 = crate::cert::spec_validity_der(i1, e1);
    let v2 = crate::cert::spec_validity_der(i2, e2);
    let tail = f6 + f7 + f8;
    assert(fields1 =~= (head + v1) + tail);
    assert(fields2 =~= (head + v2) + tail);
    assert(v1.len() == 32 && v2.len() == 32);
    crate::parse::lemma_concat_split(head + v1, tail, head + v2, tail);
    crate::parse::lemma_concat_split(head, v1, head, v2);
    let u1 = crate::utctime::spec_utctime(i1);
    let u1e = crate::utctime::spec_utctime(e1);
    let u2 = crate::utctime::spec_utctime(i2);
    let u2e = crate::utctime::spec_utctime(e2);
    assert(u1 + u1e == u2 + u2e) by {
        lemma_parse_tlv_exact(0x30, u1 + u1e);
        lemma_parse_tlv_exact(0x30, u2 + u2e);
    }
    crate::parse::lemma_concat_split(u1, u1e, u2, u2e);
    assert(crate::utctime::spec_utctime_body(i1) == crate::utctime::spec_utctime_body(i2)) by {
        lemma_parse_tlv_exact(0x17, crate::utctime::spec_utctime_body(i1));
        lemma_parse_tlv_exact(0x17, crate::utctime::spec_utctime_body(i2));
    }
}

} // verus!
