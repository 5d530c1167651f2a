//! The certificate builder: assembles the to-be-signed structure, drives
//! signing, and assembles the final self-signed certificate embedding the
//! attestation payload in a single extension.

use vstd::prelude::*;
use vstd::string::StringSliceAdditionalSpecFns;

use crate::der::{
    der_bit_string, der_octet_string, der_oid, der_sequence, der_small_integer,
    der_unsigned_integer, der_utf8_string, push_bytes, spec_bit_string, spec_octet_string,
    spec_oid, spec_sequence, spec_small_integer, spec_unsigned_integer, spec_utf8_string,
};
use crate::err::CertError;
use crate::key::{p256_signature_of, NistP256KeyPair};
use crate::oids::{
    common_name_arcs, comment_arcs, ec_public_key_arcs, ecdsa_with_sha256_arcs, prime256v1_arcs,
    spec_common_name_arcs, spec_comment_arcs, spec_ec_public_key_arcs,
    spec_ecdsa_with_sha256_arcs, spec_prime256v1_arcs,
};
use crate::utctime::{
    calendar_of, der_utctime, spec_unix_secs, spec_utctime, system_time_now, unix_seconds_of,
    utc_calendar, CalendarTime, UTCTIME_END_SECS,
};

verus! {

/// How many days a certificate stays valid.
pub const CERT_VALID_DAYS: u64 = 90;

/// The validity window in seconds.
pub const CERT_VALID_SECS: u64 = CERT_VALID_DAYS * 86400;

/// AlgorithmIdentifier for ecdsa-with-SHA256.
pub open spec fn spec_algorithm_der() -> Seq<u8> {
    spec_sequence(spec_oid(spec_ecdsa_with_sha256_arcs()))
}

/// A name with a single Common-Name attribute holding `cn_utf8` verbatim.
pub open spec fn spec_name_der(cn_utf8: Seq<u8>) -> Seq<u8> {
    spec_sequence(
        spec_sequence(
            spec_sequence(spec_oid(spec_common_name_arcs()) + spec_utf8_string(cn_utf8)),
        ),
    )
}

pub open spec fn spec_validity_der(issue: CalendarTime, expire: CalendarTime) -> Seq<u8> {
    spec_sequence(spec_utctime(issue) + spec_utctime(expire))
}

/// SubjectPublicKeyInfo: the EC algorithm identifier and the uncompressed
/// point as a BIT STRING.
pub open spec fn spec_spki_der(pub_bytes: Seq<u8>) -> Seq<u8> {
    spec_sequence(
        spec_sequence(spec_oid(spec_ec_public_key_arcs()) + spec_oid(spec_prime256v1_arcs()))
            + spec_bit_string(pub_bytes),
    )
}

/// The single extension: the fixed private identifier and the raw payload
/// as an OCTET STRING, with no criticality flag and no outer wrapper.
pub open spec fn spec_extension_der(payload: Seq<u8>) -> Seq<u8> {
    spec_sequence(spec_sequence(spec_oid(spec_comment_arcs()) + spec_octet_string(payload)))
}

/// The to-be-signed certificate: version 2 (meaning v3), serial 1, the
/// signature algorithm, issuer, validity, subject, public-key info, and
/// the one payload extension, in that order.
pub open spec fn spec_tbs_der(
    pub_bytes: Seq<u8>,
    issuer_utf8: Seq<u8>,
    subject_utf8: Seq<u8>,
    payload: Seq<u8>,
    issue: CalendarTime,
    expire: CalendarTime,
) -> Seq<u8> {
    spec_sequence(spec_tbs_fields(pub_bytes, issuer_utf8, subject_utf8, payload, issue, expire))
}

/// The signature value: a SEQUENCE of the two big-endian unsigned
/// components.
pub open spec fn spec_signature_value_der(r_be: Seq<u8>, s_be: Seq<u8>) -> Seq<u8> {
    spec_sequence(spec_unsigned_integer(r_be) + spec_unsigned_integer(s_be))
}

/// The final certificate: the to-be-signed bytes verbatim, the signature
/// algorithm again, and the signature value wrapped in a BIT STRING.
pub open spec fn spec_certificate_der(tbs: Seq<u8>, r_be: Seq<u8>, s_be: Seq<u8>) -> Seq<u8> {
    spec_sequence(tbs + spec_algorithm_der() + spec_bit_string(spec_signature_value_der(r_be, s_be)))
}

/// What the clock conversion guarantees of `calendar_of(secs)` for a
/// timestamp inside the UTCTime window.
pub open spec fn spec_calendar_in_window(secs: int) -> bool {
    &&& calendar_of(secs).wf()
    &&& spec_unix_secs(calendar_of(secs)) == secs
    &&& 1970 <= calendar_of(secs).year <= 2049
}

/// The to-be-signed bytes of a certificate issued at `issue_secs`.
pub open spec fn spec_tbs_at(
    pub_bytes: Seq<u8>,
    issuer_utf8: Seq<u8>,
    subject_utf8: Seq<u8>,
    payload: Seq<u8>,
    issue_secs: int,
) -> Seq<u8> {
    spec_tbs_der(
        pub_bytes,
        issuer_utf8,
        subject_utf8,
        payload,
        calendar_of(issue_secs),
        calendar_of(issue_secs + CERT_VALID_SECS as int),
    )
}

/// The certificate bytes issued at `issue_secs` by the key with the given
/// big-endian private scalar, when the signing path succeeds.
pub open spec fn spec_cert_at(
    pub_bytes: Seq<u8>,
    issuer_utf8: Seq<u8>,
    subject_utf8: Seq<u8>,
    payload: Seq<u8>,
    issue_secs: int,
    priv_be: Seq<u8>,
) -> Seq<u8> {
    let tbs = spec_tbs_at(pub_bytes, issuer_utf8, subject_utf8, payload, issue_secs);
    let sig = p256_signature_of(priv_be, tbs)->Some_0;
    spec_certificate_der(tbs, sig.0, sig.1)
}

pub fn algorithm_der() -> (r: Vec<u8>)
    ensures
        r@ == spec_algorithm_der(),
        r@.len() <= 60,
{
    let arcs = ecdsa_with_sha256_arcs();
    der_sequence(der_oid(arcs.as_slice()))
}

pub fn name_der(cn: &str) -> (r: Vec<u8>)
    requires
        cn.spec_bytes().len() <= 0x3FFF_FFFF,
    ensures
        r@ == spec_name_der(cn.spec_bytes()),
        r@.len() <= cn.spec_bytes().len() + 80,
{
    let arcs = common_name_arcs();
    let mut inner = der_oid(arcs.as_slice());
    let mut value = der_utf8_string(cn);
    inner.append(&mut value);
    proof {
        assert(inner@ =~= spec_oid(spec_common_name_arcs()) + spec_utf8_string(cn.spec_bytes()));
    }
    let attr = der_sequence(inner);
    let rdn = der_sequence(attr);
    der_sequence(rdn)
}

pub fn validity_der(issue: &CalendarTime, expire: &CalendarTime) -> (r: Vec<u8>)
    requires
        issue.wf(),
        expire.wf(),
        1950 <= issue.year < 2050,
        1950 <= expire.year < 2050,
    ensures
        r@ == spec_validity_der(*issue, *expire),
        r@.len() <= 40,
{
    let mut body = der_utctime(issue);
    let mut second = der_utctime(expire);
    body.append(&mut second);
    proof {
        assert(body@ =~= spec_utctime(*issue) + spec_utctime(*expire));
    }
    der_sequence(body)
}

pub fn spki_der(pub_bytes: &[u8]) -> (r: Vec<u8>)
    requires
        pub_bytes@.len() == 65,
    ensures
        r@ == spec_spki_der(pub_bytes@),
        r@.len() <= 200,
{
    let ec_arcs = ec_public_key_arcs();
    let curve_arcs = prime256v1_arcs();
    let mut alg_body = der_oid(ec_arcs.as_slice());
    let mut curve_oid = der_oid(curve_arcs.as_slice());
    alg_body.append(&mut curve_oid);
    let mut body = der_sequence(alg_body);
    let mut bits = der_bit_string(pub_bytes);
    body.append(&mut bits);
    proof {
        assert(body@ =~= spec_sequence(
            spec_oid(spec_ec_public_key_arcs()) + spec_oid(spec_prime256v1_arcs()),
        ) + spec_bit_string(pub_bytes@));
    }
    der_sequence(body)
}

pub fn extension_der(payload: &[u8]) -> (r: Vec<u8>)
    requires
        payload@.len() <= 0x3FFF_FFFF,
    ensures
        r@ == spec_extension_der(payload@),
        r@.len() <= payload@.len() + 80,
{
    let arcs = comment_arcs();
    let mut inner = der_oid(arcs.as_slice());
    let mut value = der_octet_string(payload);
    inner.append(&mut value);
    proof {
        assert(inner@ =~= spec_oid(spec_comment_arcs()) + spec_octet_string(payload@));
    }
    let attr = der_sequence(inner);
    der_sequence(attr)
}

/// The concatenated fields of the to-be-signed structure, in order.
pub open spec fn spec_tbs_fields(
    pub_bytes: Seq<u8>,
    issuer_utf8: Seq<u8>,
    subject_utf8: Seq<u8>,
    payload: Seq<u8>,
    issue: CalendarTime,
    expire: CalendarTime,
) -> Seq<u8> {
    spec_small_integer(2) + spec_small_integer(1) + spec_algorithm_der() + spec_name_der(
        issuer_utf8,
    ) + spec_validity_der(issue, expire) + spec_name_der(subject_utf8) + spec_spki_der(pub_bytes)
        + spec_extension_der(payload)
}

#[verifier::rlimit(100)]
fn tbs_fields(
    kp: &NistP256KeyPair,
    issuer: &str,
    subject: &str,
    payload: &[u8],
    issue_ct: &CalendarTime,
    expire_ct: &CalendarTime,
) -> (body: Vec<u8>)
    requires
        kp.wf(),
        issuer.spec_bytes().len() <= 0x3FFF_FFFF,
        subject.spec_bytes().len() <= 0x3FFF_FFFF,
        payload@.len() <= 0x3FFF_FFFF,
        issue_ct.wf(),
        expire_ct.wf(),
        1950 <= issue_ct.year < 2050,
        1950 <= expire_ct.year < 2050,
    ensures
        body@ == spec_tbs_fields(
            kp.spec_public_key_bytes(),
            issuer.spec_bytes(),
            subject.spec_bytes(),
            payload@,
            *issue_ct,
            *expire_ct,
        ),
        body@.len() <= payload@.len() + issuer.spec_bytes().len() + subject.spec_bytes().len()
            + 560,
{
    let pub_bytes = kp.public_key_into_bytes();
    let mut body = der_small_integer(2);
    let mut serial = der_small_integer(1);
    body.append(&mut serial);
    let mut alg = algorithm_der();
    body.append(&mut alg);
    let mut issuer_name = name_der(issuer);
    body.append(&mut issuer_name);
    let mut validity = validity_der(issue_ct, expire_ct);
    body.append(&mut validity);
    let mut subject_name = name_der(subject);
    body.append(&mut subject_name);
    let mut spki = spki_der(pub_bytes.as_slice());
    body.append(&mut spki);
    let mut ext = extension_der(payload);
    body.append(&mut ext);
    body
}

/// Builds the to-be-signed certificate whose validity starts at
/// `issue_secs` (Unix seconds) and ends exactly `CERT_VALID_SECS` later.
/// The length bounds in the requires reflect the four-byte definite-length
/// forms the DER writer emits, not a validation of the inputs.
#[verifier::rlimit(100)]
pub fn tbs_certificate_der(
    kp: &NistP256KeyPair,
    issuer: &str,
    subject: &str,
    payload: &[u8],
    issue_secs: u64,
) -> (r: Result<Vec<u8>, CertError>)
    requires
        kp.wf(),
        issuer.spec_bytes().len() <= 0x3FFF_FFFF,
        subject.spec_bytes().len() <= 0x3FFF_FFFF,
        payload@.len() <= 0x3FFF_FFFF,
    ensures
        r is Ok <==> issue_secs + CERT_VALID_SECS < UTCTIME_END_SECS,
        r is Err ==> r->Err_0 == CertError::TimeOutOfRange,
        r is Ok ==> r->Ok_0@.len() <= payload@.len() + issuer.spec_bytes().len()
            + subject.spec_bytes().len() + 600,
        r is Ok ==> spec_calendar_in_window(issue_secs as int) && spec_calendar_in_window(
            issue_secs + CERT_VALID_SECS,
        ),
        r is Ok ==> spec_unix_secs(calendar_of(issue_secs + CERT_VALID_SECS)) - spec_unix_secs(
            calendar_of(issue_secs as int),
        ) == CERT_VALID_DAYS * 86400,
        r is Ok ==> r->Ok_0@ == spec_tbs_at(
            kp.spec_public_key_bytes(),
            issuer.spec_bytes(),
            subject.spec_bytes(),
            payload@,
            issue_secs as int,
        ),
{
    if issue_secs >= UTCTIME_END_SECS - CERT_VALID_SECS {
        return Err(CertError::TimeOutOfRange);
    }
    let expire_secs = issue_secs + CERT_VALID_SECS;
    let issue_ct = match utc_calendar(issue_secs) {
        Ok(c) => c,
        Err(_) => return Err(CertError::TimeOutOfRange),
    };
    let expire_ct = match utc_calendar(expire_secs) {
        Ok(c) => c,
        Err(_) => return Err(CertError::TimeOutOfRange),
    };
    let body = tbs_fields(kp, issuer, subject, payload, &issue_ct, &expire_ct);
    let tbs = der_sequence(body);
    proof {
        assert(issue_ct == calendar_of(issue_secs as int));
        assert(expire_ct == calendar_of(issue_secs + CERT_VALID_SECS));
        assert(tbs@ == spec_tbs_at(
            kp.spec_public_key_bytes(),
            issuer.spec_bytes(),
            subject.spec_bytes(),
            payload@,
            issue_secs as int,
        ));
    }
    Ok(tbs)
}

/// Encodes the two big-endian signature components.
pub fn signature_value_der(r_be: &[u8], s_be: &[u8]) -> (r: Vec<u8>)
    requires
        r_be@.len() <= 0xFFFF,
        s_be@.len() <= 0xFFFF,
    ensures
        r@ == spec_signature_value_der(r_be@, s_be@),
        r@.len() <= r_be@.len() + s_be@.len() + 20,
{
    let mut body = der_unsigned_integer(r_be);
    let mut second = der_unsigned_integer(s_be);
    body.append(&mut second);
    proof {
        assert(body@ =~= spec_unsigned_integer(r_be@) + spec_unsigned_integer(s_be@));
    }
    der_sequence(body)
}

/// Assembles the final certificate from the to-be-signed bytes (embedded
/// verbatim) and the two signature components.
pub fn certificate_from_parts(tbs_der: &[u8], sig_r_be: &[u8], sig_s_be: &[u8]) -> (r: Vec<u8>)
    requires
        tbs_der@.len() <= 0xF000_0000,
        sig_r_be@.len() <= 0xFFFF,
        sig_s_be@.len() <= 0xFFFF,
    ensures
        r@ == spec_certificate_der(tbs_der@, sig_r_be@, sig_s_be@),
{
    let mut body: Vec<u8> = Vec::new();
    push_bytes(&mut body, tbs_der);
    let mut alg = algorithm_der();
    body.append(&mut alg);
    let sig_value = signature_value_der(sig_r_be, sig_s_be);
    let mut bits = der_bit_string(sig_value.as_slice());
    body.append(&mut bits);
    proof {
        assert(body@ =~= tbs_der@ + spec_algorithm_der() + spec_bit_string(
            spec_signature_value_der(sig_r_be@, sig_s_be@),
        ));
    }
    der_sequence(body)
}

impl NistP256KeyPair {
    /// Builds and signs a certificate whose validity starts at
    /// `issue_secs`.  Inside the UTCTime window the call succeeds exactly
    /// when the deterministic signing path accepts the key, and the output
    /// bytes are pinned to `spec_cert_at`.  The length bounds in the
    /// requires reflect the four-byte definite-length forms the DER writer
    /// emits, not a validation of the inputs.
    pub fn create_cert_with_extension_at(
        &self,
        issuer: &str,
        subject: &str,
        payload: &[u8],
        issue_secs: u64,
    ) -> (r: Result<Vec<u8>, CertError>)
        requires
            self.wf(),
            issuer.spec_bytes().len() <= 0x3FFF_FFFF,
            subject.spec_bytes().len() <= 0x3FFF_FFFF,
            payload@.len() <= 0x3FFF_FFFF,
        ensures
            issue_secs + CERT_VALID_SECS >= UTCTIME_END_SECS ==> r == Result::<
                Vec<u8>,
                CertError,
            >::Err(CertError::TimeOutOfRange),
            issue_secs + CERT_VALID_SECS < UTCTIME_END_SECS ==> (r is Ok <==> p256_signature_of(
                self.priv_le().reverse(),
                spec_tbs_at(
                    self.spec_public_key_bytes(),
                    issuer.spec_bytes(),
                    subject.spec_bytes(),
                    payload@,
                    issue_secs as int,
                ),
            ) is Some),
            issue_secs + CERT_VALID_SECS < UTCTIME_END_SECS && r is Err ==> r->Err_0
                == CertError::SignFailed,
            r is Err ==> (r->Err_0 == CertError::TimeOutOfRange || r->Err_0
                == CertError::SignFailed),
            r is Ok ==> spec_calendar_in_window(issue_secs as int) && spec_calendar_in_window(
                issue_secs + CERT_VALID_SECS,
            ),
            r is Ok ==> spec_unix_secs(calendar_of(issue_secs + CERT_VALID_SECS))
                - spec_unix_secs(calendar_of(issue_secs as int)) == CERT_VALID_DAYS * 86400,
            r is Ok ==> r->Ok_0@ == spec_cert_at(
                self.spec_public_key_bytes(),
                issuer.spec_bytes(),
                subject.spec_bytes(),
                payload@,
                issue_secs as int,
                self.priv_le().reverse(),
            ),
    {
        let tbs = match tbs_certificate_der(self, issuer, subject, payload, issue_secs) {
            Ok(t) => t,
            Err(e) => return Err(e),
        };
        let (sig_r, sig_s) = match self.sign_bytes(tbs.as_slice()) {
            Ok(p) => p,
            Err(e) => return Err(e),
        };
        let cert = certificate_from_parts(tbs.as_slice(), sig_r.as_slice(), sig_s.as_slice());
        proof {
            let tbs_spec = spec_tbs_at(
                self.spec_public_key_bytes(),
                issuer.spec_bytes(),
                subject.spec_bytes(),
                payload@,
                issue_secs as int,
            );
            assert(Some((sig_r@, sig_s@)) == p256_signature_of(
                self.priv_le().reverse(),
                tbs_spec,
            ));
            assert(cert@ == spec_cert_at(
                self.spec_public_key_bytes(),
                issuer.spec_bytes(),
                subject.spec_bytes(),
                payload@,
                issue_secs as int,
                self.priv_le().reverse(),
            ));
        }
        Ok(cert)
    }

    /// Makes a self-signed certificate with the attestation payload as its
    /// single extension, valid from the current time for `CERT_VALID_DAYS`
    /// days.  The clock alone decides which issue second is used; for every
    /// outcome the bytes are those of `create_cert_with_extension_at` on
    /// the observed second.  The length bounds in the requires reflect the
    /// four-byte definite-length forms the DER writer emits, not a
    /// validation of the inputs.
    pub fn create_cert_with_extension(
        &self,
        issuer: &str,
        subject: &str,
        payload: &[u8],
    ) -> (r: Result<Vec<u8>, CertError>)
        requires
            self.wf(),
            issuer.spec_bytes().len() <= 0x3FFF_FFFF,
            subject.spec_bytes().len() <= 0x3FFF_FFFF,
            payload@.len() <= 0x3FFF_FFFF,
        ensures
            r is Err ==> (r->Err_0 == CertError::ClockBeforeEpoch || r->Err_0
                == CertError::TimeOutOfRange || r->Err_0 == CertError::SignFailed),
            r is Ok ==> exists|secs: u64|
                #![auto]
                {
                    &&& secs + CERT_VALID_SECS < UTCTIME_END_SECS
                    &&& spec_calendar_in_window(secs as int)
                    &&& spec_calendar_in_window(secs + CERT_VALID_SECS)
                    &&& spec_unix_secs(calendar_of(secs + CERT_VALID_SECS)) - spec_unix_secs(
                        calendar_of(secs as int),
                    ) == CERT_VALID_DAYS * 86400
                    &&& r->Ok_0@ == spec_cert_at(
                        self.spec_public_key_bytes(),
                        issuer.spec_bytes(),
                        subject.spec_bytes(),
                        payload@,
                        secs as int,
                        self.priv_le().reverse(),
                    )
                },
    {
        let now = system_time_now();
        let secs = match unix_seconds_of(&now) {
            Ok(s) => s,
            Err(e) => return Err(e),
        };
        let r = self.create_cert_with_extension_at(issuer, subject, payload, secs);
        proof {
            if r is Ok {
                assert(secs + CERT_VALID_SECS < UTCTIME_END_SECS);
                assert(r->Ok_0@ == spec_cert_at(
                    self.spec_public_key_bytes(),
                    issuer.spec_bytes(),
                    subject.spec_bytes(),
                    payload@,
                    secs as int,
                    self.priv_le().reverse(),
                ));
            }
        }
        r
    }
}

} // verus!
