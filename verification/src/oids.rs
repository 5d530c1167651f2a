//! The object identifiers that the certificate and key structures use.

use vstd::prelude::*;

verus! {

/// id-ecPublicKey, 1.2.840.10045.2.1
pub open spec fn spec_ec_public_key_arcs() -> Seq<u64> {
    seq![1u64, 2, 840, 10045, 2, 1]
}

/// prime256v1 (NIST P-256), 1.2.840.10045.3.1.7
pub open spec fn spec_prime256v1_arcs() -> Seq<u64> {
    seq![1u64, 2, 840, 10045, 3, 1, 7]
}

/// ecdsa-with-SHA256, 1.2.840.10045.4.3.2
pub open spec fn spec_ecdsa_with_sha256_arcs() -> Seq<u64> {
    seq![1u64, 2, 840, 10045, 4, 3, 2]
}

/// Common Name attribute, 2.5.4.3
pub open spec fn spec_common_name_arcs() -> Seq<u64> {
    seq![2u64, 5, 4, 3]
}

/// The fixed private extension identifier carrying the attestation payload
/// (the Netscape comment arc), 2.16.840.1.113730.1.13
pub open spec fn spec_comment_arcs() -> Seq<u64> {
    seq![2u64, 16, 840, 1, 113730, 1, 13]
}

pub fn ec_public_key_arcs() -> (r: Vec<u64>)
    ensures
        r@ == spec_ec_public_key_arcs(),
{
    let mut v: Vec<u64> = Vec::new();
    v.push(1);
    v.push(2);
    v.push(840);
    v.push(10045);
    v.push(2);
    v.push(1);
    proof {
        assert(v@ =~= spec_ec_public_key_arcs());
    }
    v
}

pub fn prime256v1_arcs() -> (r: Vec<u64>)
    ensures
        r@ == spec_prime256v1_arcs(),
{
    let mut v: Vec<u64> = Vec::new();
    v.push(1);
    v.push(2);
    v.push(840);
    v.push(10045);
    v.push(3);
    v.push(1);
    v.push(7);
    proof {
        assert(v@ =~= spec_prime256v1_arcs());
    }
    v
}

pub fn ecdsa_with_sha256_arcs() -> (r: Vec<u64>)
    ensures
        r@ == spec_ecdsa_with_sha256_arcs(),
{
    let mut v: Vec<u64> = Vec::new();
    v.push(1);
    v.push(2);
    v.push(840);
    v.push(10045);
    v.push(4);
    v.push(3);
    v.push(2);
    proof {
        assert(v@ =~= spec_ecdsa_with_sha256_arcs());
    }
    v
}

pub fn common_name_arcs() -> (r: Vec<u64>)
    ensures
        r@ == spec_common_name_arcs(),
{
    let mut v: Vec<u64> = Vec::new();
    v.push(2);
    v.push(5);
    v.push(4);
    v.push(3);
    proof {
        assert(v@ =~= spec_common_name_arcs());
    }
    v
}

pub fn comment_arcs() -> (r: Vec<u64>)
    ensures
        r@ == spec_comment_arcs(),
{
    let mut v: Vec<u64> = Vec::new();
    v.push(2);
    v.push(16);
    v.push(840);
    v.push(1);
    v.push(113730);
    v.push(1);
    v.push(13);
    proof {
        assert(v@ =~= spec_comment_arcs());
    }
    v
}

} // verus!
