//! A specification-level DER reader, inverse to the writer in `der`.
//!
//! The reader lets the crate state round-trip laws: what a standard DER
//! decoder recovers from the bytes the builders produce.

use vstd::prelude::*;

use crate::der::{spec_len_bytes, spec_tlv};
use vstd::arithmetic::div_mod::{lemma_div_denominator, lemma_fundamental_div_mod};

verus! {

/// Reads one definite length; yields the length and the bytes after it.
pub open spec fn spec_parse_len(s: Seq<u8>) -> Option<(nat, Seq<u8>)> {
    if s.len() == 0 {
        None
    } else {
        let b0 = s[0];
        if b0 < 0x80 {
            Some(((b0 as nat), s.subrange(1, s.len() as int)))
        } else if b0 == 0x81 && s.len() >= 2 {
            Some(((s[1] as nat), s.subrange(2, s.len() as int)))
        } else if b0 == 0x82 && s.len() >= 3 {
            Some(((s[1] as nat) * 0x100 + (s[2] as nat), s.subrange(3, s.len() as int)))
        } else if b0 == 0x83 && s.len() >= 4 {
            Some(
                (
                    (s[1] as nat) * 0x10000 + (s[2] as nat) * 0x100 + (s[3] as nat),
                    s.subrange(4, s.len() as int),
                ),
            )
        } else if b0 == 0x84 && s.len() >= 5 {
            Some(
                (
                    (s[1] as nat) * 0x1000000 + (s[2] as nat) * 0x10000 + (s[3] as nat) * 0x100 + (
                    s[4] as nat),
                    s.subrange(5, s.len() as int),
                ),
            )
        } else {
            None
        }
    }
}

/// Reads one tag-length-value triple; yields the tag, the value, and the
/// bytes after the triple.
pub open spec fn spec_parse_tlv(s: Seq<u8>) -> Option<(u8, Seq<u8>, Seq<u8>)> {
    if s.len() == 0 {
        None
    } else {
        match spec_parse_len(s.subrange(1, s.len() as int)) {
            Some(p) => {
                let n = p.0;
                let rest = p.1;
                if rest.len() >= n {
                    Some(
                        (s[0], rest.subrange(0, n as int), rest.subrange(
                            n as int,
                            rest.len() as int,
                        )),
                    )
                } else {
                    None
                }
            },
            None => None,
        }
    }
}

/// Reading a written length recovers it exactly.
pub proof fn lemma_parse_len_inverse(n: nat, rest: Seq<u8>)
    requires
        n < 0x1_0000_0000,
    ensures
        spec_parse_len(spec_len_bytes(n) + rest) == Some((n, rest)),
{
    let s = spec_len_bytes(n) + rest;
    if n < 0x80 {
        assert(s.subrange(1, s.len() as int) =~= rest);
    } else if n < 0x100 {
        assert(s.subrange(2, s.len() as int) =~= rest);
    } else if n < 0x10000 {
        lemma_fundamental_div_mod(n as int, 0x100);
        assert(s.subrange(3, s.len() as int) =~= rest);
    } else if n < 0x1000000 {
        lemma_fundamental_div_mod(n as int, 0x100);
        lemma_fundamental_div_mod(n as int / 0x100, 0x100);
        lemma_div_denominator(n as int, 0x100, 0x100);
        assert(s.subrange(4, s.len() as int) =~= rest);
    } else {
        lemma_fundamental_div_mod(n as int, 0x100);
        lemma_fundamental_div_mod(n as int / 0x100, 0x100);
        lemma_fundamental_div_mod(n as int / 0x10000, 0x100);
        lemma_div_denominator(n as int, 0x100, 0x100);
        lemma_div_denominator(n as int / 0x100, 0x100, 0x100);
        lemma_div_denominator(n as int, 0x10000, 0x100);
        assert(s.subrange(5, s.len() as int) =~= rest);
    }
}

/// Reading a written triple recovers the tag, the value, and the rest.
pub proof fn lemma_parse_tlv_inverse(tag: u8, body: Seq<u8>, rest: Seq<u8>)
    requires
        body.len() < 0x1_0000_0000,
    ensures
        spec_parse_tlv(spec_tlv(tag, body) + rest) == Some((tag, body, rest)),
{
    let s = spec_tlv(tag, body) + rest;
    assert(s.subrange(1, s.len() as int) =~= spec_len_bytes(body.len()) + (body + rest));
    lemma_parse_len_inverse(body.len(), body + rest);
    assert((body + rest).subrange(0, body.len() as int) =~= body);
    assert((body + rest).subrange(body.len() as int, (body + rest).len() as int) =~= rest);
}

/// A triple written with nothing after it reads back the same way.
pub proof fn lemma_parse_tlv_exact(tag: u8, body: Seq<u8>)
    requires
        body.len() < 0x1_0000_0000,
    ensures
        spec_parse_tlv(spec_tlv(tag, body)) == Some((tag, body, Seq::<u8>::empty())),
{
    assert(spec_tlv(tag, body) + Seq::<u8>::empty() =~= spec_tlv(tag, body));
    lemma_parse_tlv_inverse(tag, body, Seq::<u8>::empty());
}

/// Two equal concatenations with equally long heads have equal heads and
/// equal tails.
pub proof fn lemma_concat_split(a1: Seq<u8>, b1: Seq<u8>, a2: Seq<u8>, b2: Seq<u8>)
    requires
        a1.len() == a2.len(),
        a1 + b1 == a2 + b2,
    ensures
        a1 == a2,
        b1 == b2,
{
    assert(a1 =~= (a1 + b1).subrange(0, a1.len() as int));
    assert(a2 =~= (a2 + b2).subrange(0, a2.len() as int));
    assert(b1 =~= (a1 + b1).subrange(a1.len() as int, (a1 + b1).len() as int));
    assert(b2 =~= (a2 + b2).subrange(a2.len() as int, (a2 + b2).len() as int));
}

} // verus!
