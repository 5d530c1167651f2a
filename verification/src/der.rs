//! A small DER (Distinguished Encoding Rules) writer.
//!
//! Every executable builder returns exactly the byte sequence that the
//! corresponding `spec_` function describes, so callers can reason about
//! the precise output bytes of each ASN.1 construct.

use vstd::prelude::*;
use vstd::string::StringSliceAdditionalSpecFns;

verus! {

// ---------------------------------------------------------------------------
// Specification of the encoding
// ---------------------------------------------------------------------------

/// Definite-length encoding of a content length (short form below 0x80,
/// long form with 1 to 4 length bytes above).
pub open spec fn spec_len_bytes(n: nat) -> Seq<u8>
    recommends
        n < 0x1_0000_0000,
{
    if n < 0x80 {
        seq![n as u8]
    } else if n < 0x100 {
        seq![0x81u8, n as u8]
    } else if n < 0x10000 {
        seq![0x82u8, (n / 0x100) as u8, (n % 0x100) as u8]
    } else if n < 0x1000000 {
        seq![0x83u8, (n / 0x10000) as u8, ((n / 0x100) % 0x100) as u8, (n % 0x100) as u8]
    } else {
        seq![
            0x84u8,
            (n / 0x1000000) as u8,
            ((n / 0x10000) % 0x100) as u8,
            ((n / 0x100) % 0x100) as u8,
            (n % 0x100) as u8,
        ]
    }
}

/// A complete tag-length-value triple.
pub open spec fn spec_tlv(tag: u8, body: Seq<u8>) -> Seq<u8> {
    seq![tag] + spec_len_bytes(body.len()) + body
}

pub open spec fn spec_sequence(body: Seq<u8>) -> Seq<u8> {
    spec_tlv(0x30, body)
}

pub open spec fn spec_octet_string(data: Seq<u8>) -> Seq<u8> {
    spec_tlv(0x04, data)
}

/// BIT STRING of whole bytes: one leading byte counting the unused bits
/// (always zero here) followed by the data.
pub open spec fn spec_bit_string(data: Seq<u8>) -> Seq<u8> {
    spec_tlv(0x03, seq![0u8] + data)
}

pub open spec fn spec_utf8_string(data: Seq<u8>) -> Seq<u8> {
    spec_tlv(0x0C, data)
}

/// INTEGER holding a single non-negative value below 0x80.
pub open spec fn spec_small_integer(v: u8) -> Seq<u8>
    recommends
        v < 0x80,
{
    spec_tlv(0x02, seq![v])
}

/// Constructed context-specific tag `[n]`.
pub open spec fn spec_context_tag(n: u8, body: Seq<u8>) -> Seq<u8>
    recommends
        n < 0x1F,
{
    spec_tlv((0xA0 + n) as u8, body)
}

pub open spec fn spec_trim_leading_zeros(b: Seq<u8>) -> Seq<u8>
    decreases b.len(),
{
    if b.len() > 0 && b[0] == 0 {
        spec_trim_leading_zeros(b.subrange(1, b.len() as int))
    } else {
        b
    }
}

/// Content octets of an INTEGER holding the big-endian unsigned value `b`:
/// minimal length, with one leading zero octet if the top bit would
/// otherwise read as a sign bit.
pub open spec fn spec_uint_content(b: Seq<u8>) -> Seq<u8> {
    let t = spec_trim_leading_zeros(b);
    if t.len() == 0 {
        seq![0u8]
    } else if t[0] >= 0x80 {
        seq![0u8] + t
    } else {
        t
    }
}

pub open spec fn spec_unsigned_integer(b: Seq<u8>) -> Seq<u8> {
    spec_tlv(0x02, spec_uint_content(b))
}

/// Base-128 continuation bytes (high bit set) of `u`, most significant first.
pub open spec fn spec_base128_marked(u: nat) -> Seq<u8>
    decreases u,
{
    if u < 0x80 {
        seq![(u + 0x80) as u8]
    } else {
        spec_base128_marked(u / 0x80) + seq![((u % 0x80) + 0x80) as u8]
    }
}

/// Base-128 encoding of one OID sub-identifier: continuation bytes with the
/// high bit set, then one final byte with the high bit clear.
pub open spec fn spec_base128(v: nat) -> Seq<u8> {
    if v < 0x80 {
        seq![v as u8]
    } else {
        spec_base128_marked(v / 0x80) + seq![(v % 0x80) as u8]
    }
}

pub open spec fn spec_oid_tail(arcs: Seq<u64>, i: int) -> Seq<u8>
    decreases arcs.len() - i,
{
    if i < 0 || i >= arcs.len() {
        Seq::<u8>::empty()
    } else {
        spec_base128(arcs[i] as nat) + spec_oid_tail(arcs, i + 1)
    }
}

/// OID content octets: the first two arcs combine into one sub-identifier,
/// the rest follow in base-128.
pub open spec fn spec_oid_body(arcs: Seq<u64>) -> Seq<u8>
    recommends
        arcs.len() >= 2,
{
    spec_base128((arcs[0] * 40 + arcs[1]) as nat) + spec_oid_tail(arcs, 2)
}

pub open spec fn spec_oid(arcs: Seq<u64>) -> Seq<u8> {
    spec_tlv(0x06, spec_oid_body(arcs))
}

// ---------------------------------------------------------------------------
// Length lemmas
// ---------------------------------------------------------------------------

pub proof fn lemma_marked_len(u: nat)
    ensures
        u < 0x80 ==> spec_base128_marked(u).len() == 1,
        u < 0x4000 ==> spec_base128_marked(u).len() <= 2,
        u < 0x200000 ==> spec_base128_marked(u).len() <= 3,
        u < 0x10000000 ==> spec_base128_marked(u).len() <= 4,
        u < 0x800000000 ==> spec_base128_marked(u).len() <= 5,
    decreases u,
{
    if u >= 0x80 {
        lemma_marked_len(u / 0x80);
    }
}

pub proof fn lemma_base128_len(v: nat)
    ensures
        v < 0x800000000 * 0x80 ==> spec_base128(v).len() <= 6,
        v < 0x10000000 * 0x80 ==> spec_base128(v).len() <= 5,
{
    if v >= 0x80 {
        lemma_marked_len(v / 0x80);
    }
}

pub proof fn lemma_trim_len(b: Seq<u8>)
    ensures
        spec_trim_leading_zeros(b).len() <= b.len(),
        spec_uint_content(b).len() <= b.len() + 1,
    decreases b.len(),
{
    if b.len() > 0 && b[0] == 0 {
        lemma_trim_len(b.subrange(1, b.len() as int));
    }
}

pub proof fn lemma_oid_tail_len(arcs: Seq<u64>, i: int)
    requires
        forall|j: int| 0 <= j < arcs.len() ==> arcs[j] < 0x10000000,
        0 <= i <= arcs.len(),
    ensures
        spec_oid_tail(arcs, i).len() <= 6 * (arcs.len() - i),
    decreases arcs.len() - i,
{
    if i < arcs.len() {
        lemma_base128_len(arcs[i] as nat);
        lemma_oid_tail_len(arcs, i + 1);
    }
}

pub proof fn lemma_oid_len(arcs: Seq<u64>)
    requires
        2 <= arcs.len() <= 32,
        arcs[0] <= 2,
        forall|j: int| 0 <= j < arcs.len() ==> arcs[j] < 0x10000000,
    ensures
        spec_oid_body(arcs).len() <= 6 * arcs.len(),
        spec_oid(arcs).len() <= 3 + 6 * arcs.len(),
{
    lemma_base128_len((arcs[0] * 40 + arcs[1]) as nat);
    lemma_oid_tail_len(arcs, 2);
}

pub proof fn lemma_tlv_len(tag: u8, body: Seq<u8>)
    requires
        body.len() < 0x1_0000_0000,
    ensures
        2 + body.len() <= spec_tlv(tag, body).len() <= 6 + body.len(),
{
}

// ---------------------------------------------------------------------------
// Executable builders
// ---------------------------------------------------------------------------

/// Appends a copy of `b` to `out`.
pub fn push_bytes(out: &mut Vec<u8>, b: &[u8])
    ensures
        final(out)@ == old(out)@ + b@,
{
    let mut i: usize = 0;
    while i < b.len()
        invariant
            i <= b@.len(),
            out@ == old(out)@ + b@.subrange(0, i as int),
        decreases b@.len() - i,
    {
        out.push(b[i]);
        proof {
            assert(old(out)@ + b@.subrange(0, i as int) + seq![b@[i as int]] =~= old(out)@
                + b@.subrange(0, i as int + 1));
        }
        i = i + 1;
    }
    proof {
        assert(b@.subrange(0, b@.len() as int) =~= b@);
    }
}

/// Appends the definite-length encoding of `n`.
pub fn push_len_bytes(out: &mut Vec<u8>, n: usize)
    requires
        n < 0x1_0000_0000,
    ensures
        final(out)@ == old(out)@ + spec_len_bytes(n as nat),
{
    if n < 0x80 {
        out.push(n as u8);
    } else if n < 0x100 {
        out.push(0x81);
        out.push(n as u8);
    } else if n < 0x10000 {
        out.push(0x82);
        out.push((n / 0x100) as u8);
        out.push((n % 0x100) as u8);
    } else if n < 0x1000000 {
        out.push(0x83);
        out.push((n / 0x10000) as u8);
        out.push(((n / 0x100) % 0x100) as u8);
        out.push((n % 0x100) as u8);
    } else {
        out.push(0x84);
        out.push((n / 0x1000000) as u8);
        out.push(((n / 0x10000) % 0x100) as u8);
        out.push(((n / 0x100) % 0x100) as u8);
        out.push((n % 0x100) as u8);
    }
    proof {
        assert(out@ =~= old(out)@ + spec_len_bytes(n as nat));
    }
}

/// Wraps `body` in a tag-length-value triple.
pub fn der_tlv(tag: u8, body: Vec<u8>) -> (r: Vec<u8>)
    requires
        body@.len() < 0x1_0000_0000,
    ensures
        r@ == spec_tlv(tag, body@),
        2 + body@.len() <= r@.len() <= 6 + body@.len(),
{
    let ghost body0 = body@;
    let mut out: Vec<u8> = Vec::new();
    out.push(tag);
    push_len_bytes(&mut out, body.len());
    let mut b = body;
    out.append(&mut b);
    proof {
        assert(out@ =~= spec_tlv(tag, body0));
    }
    out
}

pub fn der_sequence(body: Vec<u8>) -> (r: Vec<u8>)
    requires
        body@.len() < 0x1_0000_0000,
    ensures
        r@ == spec_sequence(body@),
        2 + body@.len() <= r@.len() <= 6 + body@.len(),
{
    der_tlv(0x30, body)
}

pub fn der_octet_string(data: &[u8]) -> (r: Vec<u8>)
    requires
        data@.len() < 0x1_0000_0000,
    ensures
        r@ == spec_octet_string(data@),
        2 + data@.len() <= r@.len() <= 6 + data@.len(),
{
    let mut body: Vec<u8> = Vec::new();
    push_bytes(&mut body, data);
    der_tlv(0x04, body)
}

pub fn der_bit_string(data: &[u8]) -> (r: Vec<u8>)
    requires
        data@.len() < 0xFFFF_FFFF,
    ensures
        r@ == spec_bit_string(data@),
        3 + data@.len() <= r@.len() <= 7 + data@.len(),
{
    let mut body: Vec<u8> = Vec::new();
    body.push(0);
    push_bytes(&mut body, data);
    proof {
        assert(body@ =~= seq![0u8] + data@);
    }
    der_tlv(0x03, body)
}

pub fn der_utf8_string(s: &str) -> (r: Vec<u8>)
    requires
        s.spec_bytes().len() < 0x1_0000_0000,
    ensures
        r@ == spec_utf8_string(s.spec_bytes()),
        2 + s.spec_bytes().len() <= r@.len() <= 6 + s.spec_bytes().len(),
{
    let mut body: Vec<u8> = Vec::new();
    push_bytes(&mut body, s.as_bytes());
    der_tlv(0x0C, body)
}

pub fn der_small_integer(v: u8) -> (r: Vec<u8>)
    requires
        v < 0x80,
    ensures
        r@ == spec_small_integer(v),
        r@.len() == 3,
{
    let mut body: Vec<u8> = Vec::new();
    body.push(v);
    proof {
        assert(body@ =~= seq![v]);
    }
    der_tlv(0x02, body)
}

pub fn der_context_tag(n: u8, body: Vec<u8>) -> (r: Vec<u8>)
    requires
        n < 0x1F,
        body@.len() < 0x1_0000_0000,
    ensures
        r@ == spec_context_tag(n, body@),
        2 + body@.len() <= r@.len() <= 6 + body@.len(),
{
    der_tlv(0xA0 + n, body)
}

proof fn lemma_trim_at(b: Seq<u8>, k: int)
    requires
        0 <= k <= b.len(),
        forall|j: int| 0 <= j < k ==> b[j] == 0,
        k == b.len() || b[k] != 0,
    ensures
        spec_trim_leading_zeros(b) == b.subrange(k, b.len() as int),
    decreases k,
{
    if k == 0 {
        assert(b.subrange(0, b.len() as int) =~= b);
    } else {
        let tail = b.subrange(1, b.len() as int);
        lemma_trim_at(tail, k - 1);
        assert(tail.subrange(k - 1, tail.len() as int) =~= b.subrange(k, b.len() as int));
    }
}

/// INTEGER holding the big-endian unsigned value `data` (any number of
/// leading zero octets), encoded minimally.
pub fn der_unsigned_integer(data: &[u8]) -> (r: Vec<u8>)
    requires
        data@.len() < 0xFFFF_FFFF,
    ensures
        r@ == spec_unsigned_integer(data@),
        r@.len() <= 7 + data@.len(),
{
    let mut i: usize = 0;
    while i < data.len() && data[i] == 0
        invariant
            i <= data@.len(),
            forall|j: int| 0 <= j < i ==> data@[j] == 0,
        decreases data@.len() - i,
    {
        i = i + 1;
    }
    proof {
        lemma_trim_at(data@, i as int);
    }
    let mut body: Vec<u8> = Vec::new();
    if i == data.len() {
        body.push(0);
        proof {
            assert(body@ =~= spec_uint_content(data@));
        }
    } else if data[i] >= 0x80 {
        body.push(0);
        let mut k: usize = i;
        while k < data.len()
            invariant
                i <= k <= data@.len(),
                body@ == seq![0u8] + data@.subrange(i as int, k as int),
            decreases data@.len() - k,
        {
            body.push(data[k]);
            proof {
                assert(seq![0u8] + data@.subrange(i as int, k as int) + seq![data@[k as int]]
                    =~= seq![0u8] + data@.subrange(i as int, k as int + 1));
            }
            k = k + 1;
        }
        proof {
            assert(body@ =~= spec_uint_content(data@));
        }
    } else {
        let mut k: usize = i;
        while k < data.len()
            invariant
                i <= k <= data@.len(),
                body@ == data@.subrange(i as int, k as int),
            decreases data@.len() - k,
        {
            body.push(data[k]);
            proof {
                assert(data@.subrange(i as int, k as int) + seq![data@[k as int]]
                    =~= data@.subrange(i as int, k as int + 1));
            }
            k = k + 1;
        }
        proof {
            assert(body@ =~= spec_uint_content(data@));
        }
    }
    der_tlv(0x02, body)
}

fn push_base128_marked(out: &mut Vec<u8>, u: u64)
    ensures
        final(out)@ == old(out)@ + spec_base128_marked(u as nat),
    decreases u,
{
    if u >= 0x80 {
        push_base128_marked(out, u / 0x80);
    }
    out.push((u % 0x80) as u8 + 0x80);
    proof {
        if u >= 0x80 {
            assert(out@ =~= old(out)@ + spec_base128_marked(u as nat));
        } else {
            assert(out@ =~= old(out)@ + spec_base128_marked(u as nat));
        }
    }
}

fn push_base128(out: &mut Vec<u8>, v: u64)
    ensures
        final(out)@ == old(out)@ + spec_base128(v as nat),
{
    if v < 0x80 {
        out.push(v as u8);
        proof {
            assert(out@ =~= old(out)@ + spec_base128(v as nat));
        }
    } else {
        push_base128_marked(out, v / 0x80);
        out.push((v % 0x80) as u8);
        proof {
            assert(out@ =~= old(out)@ + spec_base128(v as nat));
        }
    }
}

/// OBJECT IDENTIFIER with the given arcs.
pub fn der_oid(arcs: &[u64]) -> (r: Vec<u8>)
    requires
        2 <= arcs@.len() <= 32,
        arcs@[0] <= 2,
        forall|i: int| 0 <= i < arcs@.len() ==> arcs@[i] < 0x10000000,
    ensures
        r@ == spec_oid(arcs@),
        r@.len() <= 3 + 6 * arcs@.len(),
{
    let mut body: Vec<u8> = Vec::new();
    let head: u64 = arcs[0] * 40 + arcs[1];
    push_base128(&mut body, head);
    proof {
        lemma_base128_len(head as nat);
    }
    let mut i: usize = 2;
    while i < arcs.len()
        invariant
            2 <= i <= arcs@.len(),
            arcs@.len() <= 32,
            forall|j: int| 0 <= j < arcs@.len() ==> arcs@[j] < 0x10000000,
            body@.len() <= 6 * (i as int),
            body@ + spec_oid_tail(arcs@, i as int) == spec_oid_body(arcs@),
        decreases arcs@.len() - i,
    {
        let ghost before = body@;
        push_base128(&mut body, arcs[i]);
        proof {
            lemma_base128_len(arcs@[i as int] as nat);
            assert(before + spec_base128(arcs@[i as int] as nat) + spec_oid_tail(
                arcs@,
                i as int + 1,
            ) =~= before + spec_oid_tail(arcs@, i as int));
        }
        i = i + 1;
    }
    proof {
        assert(body@ + spec_oid_tail(arcs@, arcs@.len() as int) =~= body@);
    }
    der_tlv(0x06, body)
}

} // verus!
