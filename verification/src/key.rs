//! ECDSA (NIST P-256) key pairs: generation, DER export of the private
//! key, and the signing step the certificate builder drives.
//!
//! The key source stores the private scalar and the two public-point
//! coordinates as 32-byte little-endian integers; every DER field instead
//! wants big-endian bytes, so the exports reverse each coordinate.

use vstd::prelude::*;

use crate::byteorder::reversed;
use crate::der::{
    der_bit_string, der_context_tag, der_octet_string, der_oid, der_sequence, der_small_integer,
    spec_bit_string, spec_context_tag, spec_octet_string, spec_oid, spec_sequence,
    spec_small_integer,
};
use crate::err::CertError;
use crate::oids::{
    ec_public_key_arcs, prime256v1_arcs, spec_ec_public_key_arcs, spec_prime256v1_arcs,
};

verus! {

/// A public point on the P-256 curve, coordinates as 32-byte little-endian
/// integers.
pub struct NistP256PublicKey {
    pub gx: Vec<u8>,
    pub gy: Vec<u8>,
}

impl NistP256PublicKey {
    pub open spec fn wf(&self) -> bool {
        self.gx@.len() == 32 && self.gy@.len() == 32
    }
}

/// A pair of ECDSA keys on the NIST P-256 curve (a.k.a. secp256r1).
///
/// The fields hold the private scalar `r` and the public coordinates
/// `gx`, `gy`, each a 32-byte little-endian unsigned integer.
pub struct NistP256KeyPair {
    r: Vec<u8>,
    gx: Vec<u8>,
    gy: Vec<u8>,
}

/// Relies on p256's `SigningKey::random` and `EncodedPoint::x`/`y`: a fresh
/// random P-256 key pair; `to_bytes` is the 32-byte big-endian private
/// scalar, and the uncompressed encoded point carries the 32-byte
/// big-endian X and Y coordinates.
#[verifier::external_body]
fn p256_generate_be() -> (r: Result<(Vec<u8>, Vec<u8>, Vec<u8>), CertError>)
    ensures
        r is Ok ==> r->Ok_0.0@.len() == 32 && r->Ok_0.1@.len() == 32 && r->Ok_0.2@.len()
            == 32,
        r is Err ==> r->Err_0 == CertError::KeyGenFailed,
{
    let sk = p256::ecdsa::SigningKey::random(&mut rand_core::OsRng);
    let point = sk.verifying_key().to_encoded_point(false);
    match (point.x(), point.y()) {
        (Some(x), Some(y)) => Ok((sk.to_bytes().to_vec(), x.to_vec(), y.to_vec())),
        _ => Err(CertError::KeyGenFailed),
    }
}

/// The outcome of the deterministic signing path on a 32-byte big-endian
/// scalar and a message: `None` when the scalar is rejected or signing
/// fails, otherwise the signature's big-endian `(r, s)` components.
/// RFC 6979 ECDSA derives its nonce from the key and the message alone,
/// so the whole outcome is a function of the two arguments, identical on
/// every machine, and can be named.
pub uninterp spec fn p256_signature_of(priv_be: Seq<u8>, msg: Seq<u8>) -> Option<
    (Seq<u8>, Seq<u8>),
>;

/// Relies on p256's `SigningKey::from_slice` and `Signer::try_sign`
/// (deterministic RFC 6979 ECDSA, message hashed with SHA-256):
/// `split_bytes` on the signature yields the 32-byte big-endian `r` and
/// `s` components.  The composite outcome is named `p256_signature_of`.
#[verifier::external_body]
fn p256_sign_be(priv_be: &[u8], msg: &[u8]) -> (r: Result<(Vec<u8>, Vec<u8>), CertError>)
    requires
        priv_be@.len() == 32,
    ensures
        r is Ok <==> p256_signature_of(priv_be@, msg@) is Some,
        r is Ok ==> Some((r->Ok_0.0@, r->Ok_0.1@)) == p256_signature_of(priv_be@, msg@),
        r is Ok ==> r->Ok_0.0@.len() == 32 && r->Ok_0.1@.len() == 32,
        r is Err ==> r->Err_0 == CertError::SignFailed,
{
    let sk = match p256::ecdsa::SigningKey::from_slice(priv_be) {
        Ok(k) => k,
        Err(_) => return Err(CertError::SignFailed),
    };
    let sig: p256::ecdsa::Signature = match p256::ecdsa::signature::Signer::try_sign(&sk, msg) {
        Ok(s) => s,
        Err(_) => return Err(CertError::SignFailed),
    };
    let (rr, ss) = sig.split_bytes();
    Ok((rr.to_vec(), ss.to_vec()))
}

/// The inner ECPrivateKey structure: version 1, the private scalar as an
/// OCTET STRING, and the public point in a `[1]` tag as a BIT STRING.
pub open spec fn spec_ec_private_key_inner(priv_be: Seq<u8>, pub_bytes: Seq<u8>) -> Seq<u8> {
    spec_sequence(
        spec_small_integer(1) + spec_octet_string(priv_be) + spec_context_tag(
            1,
            spec_bit_string(pub_bytes),
        ),
    )
}

/// The exported PrivateKeyInfo structure: version 0, the EC algorithm
/// identifier, and the inner ECPrivateKey bytes as an OCTET STRING.
pub open spec fn spec_private_key_der(priv_be: Seq<u8>, pub_bytes: Seq<u8>) -> Seq<u8> {
    spec_sequence(
        spec_small_integer(0) + spec_sequence(
            spec_oid(spec_ec_public_key_arcs()) + spec_oid(spec_prime256v1_arcs()),
        ) + spec_octet_string(spec_ec_private_key_inner(priv_be, pub_bytes)),
    )
}

impl NistP256KeyPair {
    pub closed spec fn wf(&self) -> bool {
        self.r@.len() == 32 && self.gx@.len() == 32 && self.gy@.len() == 32
    }

    /// The private scalar, little-endian.
    pub closed spec fn priv_le(&self) -> Seq<u8> {
        self.r@
    }

    /// The public X coordinate, little-endian.
    pub closed spec fn pub_x_le(&self) -> Seq<u8> {
        self.gx@
    }

    /// The public Y coordinate, little-endian.
    pub closed spec fn pub_y_le(&self) -> Seq<u8> {
        self.gy@
    }

    /// The uncompressed point encoding: a leading 4, then the big-endian
    /// X and Y coordinates.
    pub open spec fn spec_public_key_bytes(&self) -> Seq<u8> {
        seq![4u8] + self.pub_x_le().reverse() + self.pub_y_le().reverse()
    }

    /// Generates a fresh ECDSA key pair.
    pub fn new() -> (r: Result<Self, CertError>)
        ensures
            r is Ok ==> r->Ok_0.wf(),
            r is Err ==> r->Err_0 == CertError::KeyGenFailed,
    {
        match p256_generate_be() {
            Ok((prv_be, x_be, y_be)) => Ok(NistP256KeyPair {
                r: reversed(prv_be.as_slice()),
                gx: reversed(x_be.as_slice()),
                gy: reversed(y_be.as_slice()),
            }),
            Err(_) => Err(CertError::KeyGenFailed),
        }
    }

    /// Builds a key pair from the source's native little-endian parts.
    /// The caller owes the curve relation of the data model — the public
    /// point must be the private scalar times the base point — which this
    /// type cannot state or check; a pair violating it exports and signs,
    /// but its certificates will not verify.
    pub fn from_le_parts(r: Vec<u8>, gx: Vec<u8>, gy: Vec<u8>) -> (kp: Self)
        requires
            r@.len() == 32,
            gx@.len() == 32,
            gy@.len() == 32,
        ensures
            kp.wf(),
            kp.priv_le() == r@,
            kp.pub_x_le() == gx@,
            kp.pub_y_le() == gy@,
    {
        NistP256KeyPair { r, gx, gy }
    }

    /// The public half of the pair.
    pub fn pub_k(&self) -> (pk: NistP256PublicKey)
        requires
            self.wf(),
        ensures
            pk.wf(),
            pk.gx@ == self.pub_x_le(),
            pk.gy@ == self.pub_y_le(),
    {
        let mut gx: Vec<u8> = Vec::new();
        crate::der::push_bytes(&mut gx, self.gx.as_slice());
        let mut gy: Vec<u8> = Vec::new();
        crate::der::push_bytes(&mut gy, self.gy.as_slice());
        proof {
            assert(gx@ =~= self.pub_x_le());
            assert(gy@ =~= self.pub_y_le());
        }
        NistP256PublicKey { gx, gy }
    }

    /// The uncompressed public point: tag byte 4, then each coordinate
    /// reversed into big-endian order.
    pub fn public_key_into_bytes(&self) -> (r: Vec<u8>)
        requires
            self.wf(),
        ensures
            r@ == self.spec_public_key_bytes(),
            r@.len() == 65,
    {
        let mut out: Vec<u8> = Vec::new();
        out.push(4);
        let mut x = reversed(self.gx.as_slice());
        out.append(&mut x);
        let mut y = reversed(self.gy.as_slice());
        out.append(&mut y);
        proof {
            assert(out@ =~= self.spec_public_key_bytes());
        }
        out
    }

    /// The private scalar reversed into big-endian order.
    pub fn private_key_into_bytes(&self) -> (r: Vec<u8>)
        requires
            self.wf(),
        ensures
            r@ == self.priv_le().reverse(),
            r@.len() == 32,
    {
        reversed(self.r.as_slice())
    }

    /// Exports the private key as a DER PrivateKeyInfo structure embedding
    /// the curve identifiers and the raw key material.
    pub fn private_key_into_der(&self) -> (r: Vec<u8>)
        requires
            self.wf(),
        ensures
            r@ == spec_private_key_der(self.priv_le().reverse(), self.spec_public_key_bytes()),
    {
        let pub_key_bytes = self.public_key_into_bytes();
        let prv_key_bytes = self.private_key_into_bytes();

        let mut inner_body = der_small_integer(1);
        let mut prv_octets = der_octet_string(prv_key_bytes.as_slice());
        inner_body.append(&mut prv_octets);
        let pub_bits = der_bit_string(pub_key_bytes.as_slice());
        let mut tagged = der_context_tag(1, pub_bits);
        inner_body.append(&mut tagged);
        proof {
            assert(inner_body@ =~= spec_small_integer(1) + spec_octet_string(
                self.priv_le().reverse(),
            ) + spec_context_tag(1, spec_bit_string(self.spec_public_key_bytes())));
        }
        let inner = der_sequence(inner_body);

        let mut body = der_small_integer(0);
        let ec_arcs = ec_public_key_arcs();
        let curve_arcs = prime256v1_arcs();
        let mut alg_body = der_oid(ec_arcs.as_slice());
        let mut curve_oid = der_oid(curve_arcs.as_slice());
        alg_body.append(&mut curve_oid);
        let mut alg = der_sequence(alg_body);
        body.append(&mut alg);
        let mut inner_octets = der_octet_string(inner.as_slice());
        body.append(&mut inner_octets);
        proof {
            assert(body@ =~= spec_small_integer(0) + spec_sequence(
                spec_oid(spec_ec_public_key_arcs()) + spec_oid(spec_prime256v1_arcs()),
            ) + spec_octet_string(
                spec_ec_private_key_inner(
                    self.priv_le().reverse(),
                    self.spec_public_key_bytes(),
                ),
            ));
        }
        der_sequence(body)
    }

    /// Signs a message with the pair's private key; the components come
    /// back big-endian.  The signing primitive is deterministic, so the
    /// outcome is exactly `p256_signature_of` on the big-endian scalar and
    /// the message.
    pub fn sign_bytes(&self, msg: &[u8]) -> (r: Result<(Vec<u8>, Vec<u8>), CertError>)
        requires
            self.wf(),
        ensures
            r is Ok <==> p256_signature_of(self.priv_le().reverse(), msg@) is Some,
            r is Ok ==> Some((r->Ok_0.0@, r->Ok_0.1@)) == p256_signature_of(
                self.priv_le().reverse(),
                msg@,
            ),
            r is Ok ==> r->Ok_0.0@.len() == 32 && r->Ok_0.1@.len() == 32,
            r is Err ==> r->Err_0 == CertError::SignFailed,
    {
        let prv_be = self.private_key_into_bytes();
        p256_sign_be(prv_be.as_slice(), msg)
    }
}

} // verus!
