//! DER (Distinguished Encoding Rules) primitives: definite-length
//! tag-length-value encoding, object identifiers, integers, strings,
//! bit strings and booleans, as needed by certificate structures.

use vstd::prelude::*;

verus! {

/// Universal tag: SEQUENCE (constructed).
pub const TAG_SEQUENCE: u8 = 0x30;
/// Universal tag: SET (constructed).
pub const TAG_SET: u8 = 0x31;
/// Universal tag: OBJECT IDENTIFIER.
pub const TAG_OID: u8 = 0x06;
/// Universal tag: INTEGER.
pub const TAG_INTEGER: u8 = 0x02;
/// Universal tag: BOOLEAN.
pub const TAG_BOOLEAN: u8 = 0x01;
/// Universal tag: NULL.
pub const TAG_NULL: u8 = 0x05;
/// Universal tag: UTF8String.
pub const TAG_UTF8_STRING: u8 = 0x0C;
/// Universal tag: OCTET STRING.
pub const TAG_OCTET_STRING: u8 = 0x04;
/// Universal tag: BIT STRING.
pub const TAG_BIT_STRING: u8 = 0x03;
/// Universal tag: GeneralizedTime.
pub const TAG_GENERALIZED_TIME: u8 = 0x18;

/// Minimal big-endian base-256 digits of `n`; empty for zero.
pub open spec fn spec_be_bytes(n: nat) -> Seq<u8>
    decreases n,
{
    if n == 0 {
        Seq::empty()
    } else {
        spec_be_bytes(n / 256) + seq![(n % 256) as u8]
    }
}

/// DER definite-length octets: one byte below 128, otherwise a count
/// byte with the high bit set followed by the minimal big-endian length.
pub open spec fn spec_len_octets(n: nat) -> Seq<u8> {
    if n < 128 {
        seq![n as u8]
    } else {
        seq![(0x80 + spec_be_bytes(n).len()) as u8] + spec_be_bytes(n)
    }
}

/// A whole tag-length-value triple.
pub open spec fn spec_tlv(tag: u8, content: Seq<u8>) -> Seq<u8> {
    seq![tag] + spec_len_octets(content.len()) + content
}

proof fn lemma_be_bytes_len_u64(n: nat)
    requires
        n <= u64::MAX,
    ensures
        spec_be_bytes(n).len() <= 8,
{
    let n1 = n / 256;
    let n2 = n1 / 256;
    let n3 = n2 / 256;
    let n4 = n3 / 256;
    let n5 = n4 / 256;
    let n6 = n5 / 256;
    let n7 = n6 / 256;
    assert(n7 <= 255);
    assert(spec_be_bytes(n7 / 256).len() == 0);
    assert(spec_be_bytes(n7).len() <= 1);
    assert(spec_be_bytes(n6).len() <= 2);
    assert(spec_be_bytes(n5).len() <= 3);
    assert(spec_be_bytes(n4).len() <= 4);
    assert(spec_be_bytes(n3).len() <= 5);
    assert(spec_be_bytes(n2).len() <= 6);
    assert(spec_be_bytes(n1).len() <= 7);
    assert(spec_be_bytes(n).len() <= 8);
}

/// Appends the minimal big-endian base-256 digits of `n`.
fn push_be_bytes(out: &mut Vec<u8>, n: u64)
    ensures
        final(out)@ == old(out)@ + spec_be_bytes(n as nat),
    decreases n,
{
    if n == 0 {
        assert(out@ =~= old(out)@ + spec_be_bytes(0));
    } else {
        push_be_bytes(out, n / 256);
        out.push((n % 256) as u8);
        assert(out@ =~= old(out)@ + spec_be_bytes(n as nat));
    }
}

/// Appends the DER definite-length octets for a content length `n`.
fn push_len(out: &mut Vec<u8>, n: usize)
    ensures
        final(out)@ == old(out)@ + spec_len_octets(n as nat),
{
    if n < 128 {
        out.push(n as u8);
        assert(out@ =~= old(out)@ + spec_len_octets(n as nat));
    } else {
        let mut digits: Vec<u8> = Vec::new();
        push_be_bytes(&mut digits, n as u64);
        proof {
            lemma_be_bytes_len_u64(n as nat);
        }
        out.push(0x80 + digits.len() as u8);
        out.append(&mut digits);
        assert(out@ =~= old(out)@ + spec_len_octets(n as nat));
    }
}

/// Appends a copy of the bytes of `b`.
pub fn push_bytes(out: &mut Vec<u8>, b: &[u8])
    ensures
        final(out)@ == old(out)@ + b@,
{
    let ghost out0 = out@;
    let n = b.len();
    for i in 0..n
        invariant
            n == b@.len(),
            out@ == out0 + b@.subrange(0, i as int),
    {
        out.push(b[i]);
        assert(out@ =~= out0 + b@.subrange(0, i + 1));
    }
    assert(out@ =~= out0 + b@);
}

/// High-bit-set base-128 prefix digits of `n`; empty for zero.
pub open spec fn spec_b128_hi(n: nat) -> Seq<u8>
    decreases n,
{
    if n == 0 {
        Seq::empty()
    } else {
        spec_b128_hi(n / 128) + seq![(0x80 + n % 128) as u8]
    }
}

/// One OID subidentifier: minimal base 128, the high bit set on every
/// byte but the last.
pub open spec fn spec_subid(v: nat) -> Seq<u8> {
    spec_b128_hi(v / 128) + seq![(v % 128) as u8]
}

/// Concatenated subidentifier encodings.
pub open spec fn spec_subids(arcs: Seq<u64>) -> Seq<u8>
    decreases arcs.len(),
{
    if arcs.len() == 0 {
        Seq::empty()
    } else {
        spec_subid(arcs[0] as nat) + spec_subids(arcs.drop_first())
    }
}

/// Well-formed object identifier components: at least two arcs, and the
/// first two within the X.660 limits that make the combined leading
/// subidentifier well defined.
pub open spec fn wf_oid(arcs: Seq<u64>) -> bool {
    &&& arcs.len() >= 2
    &&& arcs[0] <= 2
    &&& arcs[1] <= 39
}

/// OBJECT IDENTIFIER content: the first two arcs fold into one
/// subidentifier, the rest follow one by one.
pub open spec fn spec_oid_content(arcs: Seq<u64>) -> Seq<u8> {
    spec_subid(40 * (arcs[0] as nat) + (arcs[1] as nat)) + spec_subids(arcs.skip(2))
}

/// A whole OBJECT IDENTIFIER value.
pub open spec fn spec_oid(arcs: Seq<u64>) -> Seq<u8> {
    spec_tlv(TAG_OID, spec_oid_content(arcs))
}

/// INTEGER content for an unsigned value: minimal base-256 digits, with
/// a leading zero byte whenever the top bit would read as a sign.
pub open spec fn spec_uint_content(n: nat) -> Seq<u8> {
    let digits = if n == 0 {
        seq![0u8]
    } else {
        spec_be_bytes(n)
    };
    if digits[0] >= 0x80 {
        seq![0u8] + digits
    } else {
        digits
    }
}

/// A whole INTEGER value for an unsigned number.
pub open spec fn spec_uint(n: nat) -> Seq<u8> {
    spec_tlv(TAG_INTEGER, spec_uint_content(n))
}

/// A BOOLEAN true value.
pub open spec fn spec_bool_true() -> Seq<u8> {
    spec_tlv(TAG_BOOLEAN, seq![0xFFu8])
}

/// A NULL value.
pub open spec fn spec_null() -> Seq<u8> {
    spec_tlv(TAG_NULL, Seq::empty())
}

/// A UTF8String value holding the UTF-8 bytes of `s`.
pub open spec fn spec_utf8_string(s: Seq<char>) -> Seq<u8> {
    spec_tlv(TAG_UTF8_STRING, vstd::utf8::encode_utf8(s))
}

/// An OCTET STRING value holding `b`.
pub open spec fn spec_octet_string(b: Seq<u8>) -> Seq<u8> {
    spec_tlv(TAG_OCTET_STRING, b)
}

/// A BIT STRING value holding the bits of the whole bytes `b`, so with
/// zero unused bits.
pub open spec fn spec_bit_string(b: Seq<u8>) -> Seq<u8> {
    spec_tlv(TAG_BIT_STRING, seq![0u8] + b)
}

/// The unsigned value of big-endian base-256 digits.
pub open spec fn spec_be_value(digits: Seq<u8>) -> nat
    decreases digits.len(),
{
    if digits.len() == 0 {
        0
    } else {
        spec_be_value(digits.drop_last()) * 256 + (digits.last() as nat)
    }
}

/// Reads one tag-length-value triple from the front of `bytes`: the
/// tag, the content octets, and the remainder after the triple.
pub open spec fn spec_parse_tlv(bytes: Seq<u8>) -> Option<(u8, Seq<u8>, Seq<u8>)> {
    if bytes.len() < 2 {
        None
    } else {
        let tag = bytes[0];
        let l0 = bytes[1];
        if l0 < 0x80 {
            let len = l0 as int;
            if bytes.len() < 2 + len {
                None
            } else {
                Some((tag, bytes.subrange(2, 2 + len), bytes.skip(2 + len)))
            }
        } else {
            let k = l0 - 0x80;
            if bytes.len() < 2 + k {
                None
            } else {
                let len = spec_be_value(bytes.subrange(2, 2 + k)) as int;
                if bytes.len() < 2 + k + len {
                    None
                } else {
                    Some((tag, bytes.subrange(2 + k, 2 + k + len), bytes.skip(2 + k + len)))
                }
            }
        }
    }
}

/// Reads a run of tag-length-value triples filling `bytes` exactly.
pub open spec fn spec_parse_tlv_list(bytes: Seq<u8>) -> Option<Seq<(u8, Seq<u8>)>>
    decreases bytes.len(),
{
    if bytes.len() == 0 {
        Some(Seq::empty())
    } else {
        match spec_parse_tlv(bytes) {
            None => None,
            Some((tag, content, rest)) => if rest.len() < bytes.len() {
                match spec_parse_tlv_list(rest) {
                    None => None,
                    Some(tail) => Some(seq![(tag, content)] + tail),
                }
            } else {
                None
            },
        }
    }
}

/// Reading back the big-endian digits of a number gives the number.
proof fn lemma_be_value_of_be_bytes(n: nat)
    ensures
        spec_be_value(spec_be_bytes(n)) == n,
    decreases n,
{
    if n != 0 {
        lemma_be_value_of_be_bytes(n / 256);
        assert(spec_be_bytes(n).drop_last() =~= spec_be_bytes(n / 256));
        assert(spec_be_bytes(n).last() == n % 256);
    }
}

proof fn lemma_be_value_leading_zero(digits: Seq<u8>)
    ensures
        spec_be_value(seq![0u8] + digits) == spec_be_value(digits),
    decreases digits.len(),
{
    if digits.len() == 0 {
        assert(seq![0u8] + digits =~= seq![0u8]);
        assert((seq![0u8]).drop_last() =~= Seq::<u8>::empty());
        assert((seq![0u8]).last() == 0);
        assert(spec_be_value(Seq::<u8>::empty()) == 0);
        assert(spec_be_value(seq![0u8]) == 0);
    } else {
        assert((seq![0u8] + digits).drop_last() =~= seq![0u8] + digits.drop_last());
        assert((seq![0u8] + digits).last() == digits.last());
        lemma_be_value_leading_zero(digits.drop_last());
    }
}

/// Reading back an INTEGER's content octets gives the encoded number.
pub proof fn lemma_uint_content_value(n: u64)
    ensures
        spec_be_value(spec_uint_content(n as nat)) == n,
        spec_uint_content(n as nat).len() <= 9,
{
    lemma_be_bytes_len_u64(n as nat);
    if n == 0 {
        assert(spec_uint_content(0) =~= seq![0u8]);
        assert((seq![0u8]).drop_last() =~= Seq::<u8>::empty());
        assert((seq![0u8]).last() == 0);
        assert(spec_be_value(Seq::<u8>::empty()) == 0);
        assert(spec_be_value(seq![0u8]) == 0);
    } else {
        lemma_be_value_of_be_bytes(n as nat);
        if spec_be_bytes(n as nat)[0] >= 0x80 {
            lemma_be_value_leading_zero(spec_be_bytes(n as nat));
            assert(spec_uint_content(n as nat) =~= seq![0u8] + spec_be_bytes(n as nat));
        }
    }
}

/// An encoded triple is never empty, so a run of triples shrinks as
/// it is read.
pub proof fn lemma_tlv_len(tag: u8, content: Seq<u8>)
    ensures
        spec_tlv(tag, content).len() >= 2 + content.len(),
{
}

/// Concatenation of byte runs is associative.
pub proof fn lemma_add_assoc(a: Seq<u8>, b: Seq<u8>, c: Seq<u8>)
    ensures
        (a + b) + c == a + (b + c),
{
    assert((a + b) + c =~= a + (b + c));
}

/// An empty run on the right changes nothing.
pub proof fn lemma_add_empty(a: Seq<u8>)
    ensures
        a + Seq::<u8>::empty() == a,
{
    assert(a + Seq::<u8>::empty() =~= a);
}

/// A small INTEGER's whole encoding is short.
pub proof fn lemma_uint_len(n: u64)
    ensures
        spec_uint(n as nat).len() <= 11,
{
    lemma_uint_content_value(n);
    assert(spec_len_octets(spec_uint_content(n as nat).len()).len() == 1);
}

/// Reading inverts writing: a tag-length-value triple followed by
/// anything reads back as its tag, its exact content, and the rest.
/// The content must fit a 64-bit length, as any value in memory does.
pub proof fn lemma_parse_tlv(tag: u8, content: Seq<u8>, rest: Seq<u8>)
    requires
        content.len() <= u64::MAX,
    ensures
        spec_parse_tlv(spec_tlv(tag, content) + rest) == Some((tag, content, rest)),
{
    let bytes = spec_tlv(tag, content) + rest;
    let n = content.len() as int;
    assert(bytes[0] == tag);
    if n < 128 {
        assert(bytes[1] == n as u8);
        assert(bytes.len() == 2 + n + rest.len());
        assert(bytes.subrange(2, 2 + n) =~= content);
        assert(bytes.skip(2 + n) =~= rest);
    } else {
        let digits = spec_be_bytes(n as nat);
        let k = digits.len() as int;
        lemma_be_bytes_len_u64(n as nat);
        assert(bytes[1] == (0x80 + k) as u8);
        assert(!(bytes[1] < 0x80));
        assert(bytes[1] - 0x80 == k);
        assert(bytes.len() == 2 + k + n + rest.len());
        assert(bytes.subrange(2, 2 + k) =~= digits);
        lemma_be_value_of_be_bytes(n as nat);
        assert(bytes.subrange(2 + k, 2 + k + n) =~= content);
        assert(bytes.skip(2 + k + n) =~= rest);
    }
}

/// Appending one arc to a subidentifier run appends its encoding.
pub proof fn lemma_subids_snoc(s: Seq<u64>, x: u64)
    ensures
        spec_subids(s.push(x)) == spec_subids(s) + spec_subid(x as nat),
    decreases s.len(),
{
    if s.len() == 0 {
        assert(s.push(x).drop_first() =~= Seq::<u64>::empty());
        assert(spec_subids(s.push(x)) =~= spec_subids(s) + spec_subid(x as nat));
    } else {
        assert(s.push(x).drop_first() =~= s.drop_first().push(x));
        assert(s.push(x)[0] == s[0]);
        lemma_subids_snoc(s.drop_first(), x);
        assert(spec_subids(s.push(x)) == spec_subid(s.push(x)[0] as nat) + spec_subids(
            s.push(x).drop_first(),
        ));
        assert(spec_subids(s) == spec_subid(s[0] as nat) + spec_subids(s.drop_first()));
        assert(spec_subids(s.push(x)) =~= spec_subids(s) + spec_subid(x as nat));
    }
}

/// Appends the high-bit-set base-128 prefix digits of `n`.
fn push_b128_hi(out: &mut Vec<u8>, n: u64)
    ensures
        final(out)@ == old(out)@ + spec_b128_hi(n as nat),
    decreases n,
{
    if n == 0 {
        assert(out@ =~= old(out)@ + spec_b128_hi(0));
    } else {
        push_b128_hi(out, n / 128);
        out.push((0x80 + n % 128) as u8);
        assert(out@ =~= old(out)@ + spec_b128_hi(n as nat));
    }
}

/// Appends one OID subidentifier.
fn push_subid(out: &mut Vec<u8>, v: u64)
    ensures
        final(out)@ == old(out)@ + spec_subid(v as nat),
{
    push_b128_hi(out, v / 128);
    out.push((v % 128) as u8);
    assert(out@ =~= old(out)@ + spec_subid(v as nat));
}

/// Encodes a whole OBJECT IDENTIFIER from its arcs.
pub fn der_oid(arcs: &[u64]) -> (r: Vec<u8>)
    requires
        wf_oid(arcs@),
    ensures
        r@ == spec_oid(arcs@),
{
    let mut content: Vec<u8> = Vec::new();
    let first: u64 = 40 * arcs[0] + arcs[1];
    push_subid(&mut content, first);
    let n = arcs.len();
    for i in 2..n
        invariant
            n == arcs@.len(),
            wf_oid(arcs@),
            content@ == spec_subid(40 * (arcs@[0] as nat) + (arcs@[1] as nat)) + spec_subids(
                arcs@.subrange(2, i as int),
            ),
    {
        push_subid(&mut content, arcs[i]);
        proof {
            assert(arcs@.subrange(2, i as int).push(arcs@[i as int]) =~= arcs@.subrange(
                2,
                i + 1,
            ));
            lemma_subids_snoc(arcs@.subrange(2, i as int), arcs@[i as int]);
        }
    }
    proof {
        assert(arcs@.subrange(2, n as int) =~= arcs@.skip(2));
    }
    wrap(TAG_OID, content)
}

/// Encodes an INTEGER from an unsigned 64-bit value.
pub fn der_uint(n: u64) -> (r: Vec<u8>)
    ensures
        r@ == spec_uint(n as nat),
{
    let mut digits: Vec<u8> = Vec::new();
    if n == 0 {
        digits.push(0);
    } else {
        push_be_bytes(&mut digits, n);
        assert(spec_be_bytes(n as nat).len() > 0);
    }
    let mut content: Vec<u8> = Vec::new();
    if digits[0] >= 0x80 {
        content.push(0);
    }
    content.append(&mut digits);
    assert(content@ =~= spec_uint_content(n as nat));
    wrap(TAG_INTEGER, content)
}

/// Appends a BOOLEAN true value.
pub fn push_bool_true(out: &mut Vec<u8>)
    ensures
        final(out)@ == old(out)@ + spec_bool_true(),
{
    out.push(TAG_BOOLEAN);
    out.push(0x01);
    out.push(0xFF);
    assert(out@ =~= old(out)@ + spec_bool_true());
}

/// Appends a NULL value.
pub fn push_null(out: &mut Vec<u8>)
    ensures
        final(out)@ == old(out)@ + spec_null(),
{
    out.push(TAG_NULL);
    out.push(0x00);
    assert(out@ =~= old(out)@ + spec_null());
}

/// Encodes a UTF8String from a string slice.
pub fn der_utf8_string(s: &str) -> (r: Vec<u8>)
    ensures
        r@ == spec_utf8_string(s@),
{
    let mut content: Vec<u8> = Vec::new();
    push_bytes(&mut content, s.as_bytes());
    wrap(TAG_UTF8_STRING, content)
}

/// Encodes an OCTET STRING from raw bytes.
pub fn der_octet_string(b: &[u8]) -> (r: Vec<u8>)
    ensures
        r@ == spec_octet_string(b@),
{
    let mut content: Vec<u8> = Vec::new();
    push_bytes(&mut content, b);
    wrap(TAG_OCTET_STRING, content)
}

/// Encodes a BIT STRING from whole bytes (zero unused bits).
pub fn der_bit_string(b: &[u8]) -> (r: Vec<u8>)
    ensures
        r@ == spec_bit_string(b@),
{
    let mut content: Vec<u8> = Vec::new();
    content.push(0);
    push_bytes(&mut content, b);
    proof {
        assert(content@ =~= seq![0u8] + b@);
    }
    wrap(TAG_BIT_STRING, content)
}

/// Wraps already-encoded content into a tag-length-value triple.
pub fn wrap(tag: u8, content: Vec<u8>) -> (r: Vec<u8>)
    ensures
        r@ == spec_tlv(tag, content@),
{
    let ghost c0 = content@;
    let mut inner = content;
    let mut out: Vec<u8> = Vec::new();
    out.push(tag);
    push_len(&mut out, inner.len());
    out.append(&mut inner);
    proof {
        assert(out@ =~= spec_tlv(tag, c0));
    }
    out
}

} // verus!
