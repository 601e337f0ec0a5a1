//! The byte layer of the wire codec.
//!
//! Each wire message is laid out as tagged fields: a one-byte field key
//! (field number and wire type), then a base-128 varint for integer fields
//! or a varint length followed by that many bytes for strings, byte buffers
//! and nested messages. The encoder writes every field of a message in
//! field-number order; the decoder accepts exactly that canonical order,
//! treats every field as optional (an absent field keeps its default, so a
//! missing mandatory discriminant is caught later, by the field-by-field
//! conversions), and rejects anything else: trailing bytes, unknown or
//! out-of-order fields, truncated lengths and malformed varints all fail
//! the parse.

use vstd::prelude::*;
use vstd::string::StrSliceExecFns;
use vstd::utf8::{decode_utf8, encode_utf8, valid_utf8};

use crate::operations_protobuf::wire_ops;

verus! {

/// The base-128 varint encoding of an integer: seven bits per byte, least
/// significant group first, the high bit marking continuation.
pub open spec fn spec_varint(n: u64) -> Seq<u8>
    decreases n,
{
    if n < 128 {
        seq![n as u8]
    } else {
        seq![((n % 128) + 128) as u8] + spec_varint(n / 128)
    }
}

/// What parsing a varint at position `i` of `b` yields: the value and the
/// position after it, or nothing if the buffer ends inside the varint or
/// the value overflows 64 bits.
pub open spec fn spec_parse_varint(b: Seq<u8>, i: int) -> Option<(u64, int)>
    decreases b.len() - i,
{
    if i < 0 || i >= b.len() {
        Option::None
    } else {
        let byte = b[i];
        if byte < 128 {
            Option::Some((byte as u64, i + 1))
        } else {
            match spec_parse_varint(b, i + 1) {
                Option::None => Option::None,
                Option::Some((v, j)) => if (v as int) * 128 + (byte as int - 128) > u64::MAX as int {
                    Option::None
                } else {
                    Option::Some((((v as int) * 128 + (byte as int - 128)) as u64, j))
                },
            }
        }
    }
}

/// A length-delimited payload: the varint of its length, then its bytes.
pub open spec fn spec_ld(p: Seq<u8>) -> Seq<u8> {
    spec_varint(p.len() as u64) + p
}

/// What parsing a length-delimited payload at position `i` of `b` yields:
/// the payload bytes and the position after them.
pub open spec fn spec_parse_ld(b: Seq<u8>, i: int) -> Option<(Seq<u8>, int)> {
    match spec_parse_varint(b, i) {
        Option::None => Option::None,
        Option::Some((len, j)) => if j + len <= b.len() {
            Option::Some((b.subrange(j, j + len), j + len))
        } else {
            Option::None
        },
    }
}

/// A varint self-delimits: wherever its bytes stand in a buffer, parsing
/// there yields its value and stops right after it.
pub proof fn lemma_parse_varint_prefix(n: u64, b: Seq<u8>, i: int)
    requires
        0 <= i,
        i + spec_varint(n).len() <= b.len(),
        b.subrange(i, i + spec_varint(n).len()) == spec_varint(n),
    ensures
        spec_parse_varint(b, i) == Option::Some((n, i + spec_varint(n).len())),
    decreases n,
{
    let e = spec_varint(n);
    assert(b[i] == e[0]);
    if n < 128 {
    } else {
        let e2 = spec_varint(n / 128);
        assert(e == seq![((n % 128) + 128) as u8] + e2);
        assert(b.subrange(i + 1, i + 1 + e2.len() as int) =~= e2) by {
            assert(forall|k: int|
                0 <= k < e2.len() ==> b.subrange(i + 1, i + 1 + e2.len() as int)[k] == b[i + 1 + k]
                    && e[k + 1] == e2[k]);
        }
        lemma_parse_varint_prefix(n / 128, b, i + 1);
        assert(b[i] == ((n % 128) + 128) as u8);
        assert(b[i] as int - 128 == n % 128);
        assert((n / 128) * 128 + n % 128 == n);
    }
}

/// A parsed varint always makes progress and stays inside the buffer.
pub proof fn lemma_parse_varint_bounds(b: Seq<u8>, i: int)
    ensures
        spec_parse_varint(b, i) matches Option::Some(r) ==> i < r.1 <= b.len(),
    decreases b.len() - i,
{
    if 0 <= i < b.len() {
        if b[i] >= 128 {
            lemma_parse_varint_bounds(b, i + 1);
        }
    }
}

/// A length-delimited payload self-delimits: wherever its encoding stands
/// in a buffer, parsing there yields the payload and stops right after it.
pub proof fn lemma_parse_ld_prefix(p: Seq<u8>, b: Seq<u8>, i: int)
    requires
        0 <= i,
        p.len() <= u64::MAX,
        i + spec_ld(p).len() <= b.len(),
        b.subrange(i, i + spec_ld(p).len()) == spec_ld(p),
    ensures
        spec_parse_ld(b, i) == Option::Some((p, i + spec_ld(p).len())),
{
    let n = p.len() as u64;
    let v = spec_varint(n);
    assert(spec_ld(p) == v + p);
    assert(b.subrange(i, i + v.len() as int) =~= v) by {
        assert(forall|k: int|
            0 <= k < v.len() ==> b.subrange(i, i + spec_ld(p).len() as int)[k] == (v + p)[k]);
    }
    lemma_parse_varint_prefix(n, b, i);
    let j = i + v.len();
    assert(b.subrange(j, j + p.len() as int) =~= p) by {
        assert forall|k: int| 0 <= k < p.len() implies b.subrange(j, j + p.len() as int)[k]
            == p[k] by {
            assert(b.subrange(i, i + spec_ld(p).len() as int)[v.len() + k] == (v + p)[v.len()
                + k]);
        }
    }
}

/// Append the varint encoding of `n` to `out`.
pub fn encode_varint(out: &mut Vec<u8>, n: u64)
    ensures
        final(out)@ == old(out)@ + spec_varint(n),
    decreases n,
{
    if n < 128 {
        out.push(n as u8);
        proof {
            assert(final(out)@ =~= old(out)@ + spec_varint(n));
        }
    } else {
        out.push(((n % 128) + 128) as u8);
        encode_varint(out, n / 128);
        proof {
            assert(final(out)@ =~= old(out)@ + spec_varint(n));
        }
    }
}

/// Parse a varint at position `i` of `b`.
pub fn parse_varint(b: &Vec<u8>, i: usize) -> (r: Option<(u64, usize)>)
    ensures
        match r {
            Option::Some((v, j)) => spec_parse_varint(b@, i as int) == Option::Some((v, j as int))
                && i < j <= b@.len(),
            Option::None => spec_parse_varint(b@, i as int) is None,
        },
    decreases b.len() - i,
{
    if i >= b.len() {
        return Option::None;
    }
    let byte = b[i];
    if byte < 128 {
        Option::Some((byte as u64, i + 1))
    } else {
        match parse_varint(b, i + 1) {
            Option::None => Option::None,
            Option::Some((v, j)) => {
                let c = (byte - 128) as u64;
                if v > (u64::MAX - c) / 128 {
                    proof {
                        assert((u64::MAX - c) / 128 * 128 + (u64::MAX - c) % 128 == u64::MAX - c);
                        assert((v as int) * 128 + (c as int) > u64::MAX as int);
                    }
                    Option::None
                } else {
                    proof {
                        assert((u64::MAX - c) / 128 * 128 + (u64::MAX - c) % 128 == u64::MAX - c);
                        assert((v as int) * 128 <= ((u64::MAX - c) / 128) as int * 128);
                    }
                    Option::Some((v * 128 + c, j))
                }
            },
        }
    }
}

/// Copy the bytes of `b` between `start` and `end` into a fresh vector.
pub fn subvec(b: &Vec<u8>, start: usize, end: usize) -> (r: Vec<u8>)
    requires
        start <= end <= b.len(),
    ensures
        r@ == b@.subrange(start as int, end as int),
{
    let mut out: Vec<u8> = Vec::new();
    let mut k: usize = start;
    while k < end
        invariant
            start <= k <= end <= b.len(),
            out@ == b@.subrange(start as int, k as int),
        decreases end - k,
    {
        out.push(b[k]);
        proof {
            assert(out@ =~= b@.subrange(start as int, k + 1 as int));
        }
        k = k + 1;
    }
    out
}

/// Parse a length-delimited payload at position `i` of `b`, copying the
/// payload out.
pub fn parse_ld(b: &Vec<u8>, i: usize) -> (r: Option<(Vec<u8>, usize)>)
    ensures
        match r {
            Option::Some(pair) => spec_parse_ld(b@, i as int) == Option::Some(
                (pair.0@, pair.1 as int),
            ) && i < pair.1 <= b@.len(),
            Option::None => spec_parse_ld(b@, i as int) is None,
        },
{
    match parse_varint(b, i) {
        Option::None => Option::None,
        Option::Some((len, j)) => {
            if len > (b.len() - j) as u64 {
                Option::None
            } else {
                let end = j + (len as usize);
                Option::Some((subvec(b, j, end), end))
            }
        },
    }
}

/// Relies on `String::from_utf8`: it succeeds exactly on valid UTF-8 input
/// and decodes it, so the returned string's bytes are the input bytes.
#[verifier::external_body]
pub fn bytes_to_string(v: Vec<u8>) -> (r: Option<String>)
    ensures
        r matches Option::Some(s) ==> valid_utf8(v@) && s@ == decode_utf8(v@),
        r is None ==> !valid_utf8(v@),
{
    match String::from_utf8(v) {
        Ok(s) => Option::Some(s),
        Err(_) => Option::None,
    }
}

/// The UTF-8 bytes of a string, as a fresh vector.
pub fn string_to_bytes(s: &String) -> (r: Vec<u8>)
    ensures
        r@ == encode_utf8(s@),
{
    s.as_str().as_bytes_vec()
}

// Field keys, as single bytes: (field number << 3) | wire type, with wire
// type 0 for varints and 2 for length-delimited fields.
/// Key of field 1 as a varint.
pub const KEY1_VARINT: u8 = 0x08;

/// Key of field 1 as a length-delimited payload.
pub const KEY1_LD: u8 = 0x0A;

/// Key of field 2 as a varint.
pub const KEY2_VARINT: u8 = 0x10;

/// Key of field 2 as a length-delimited payload.
pub const KEY2_LD: u8 = 0x12;

/// Key of field 3 as a length-delimited payload.
pub const KEY3_LD: u8 = 0x1A;

/// Key of field 4 as a length-delimited payload.
pub const KEY4_LD: u8 = 0x22;

/// The bytes of an HMAC wire message: its hash code in field 1.
pub open spec fn spec_enc_hmac(m: wire_ops::Hmac) -> Seq<u8> {
    seq![KEY1_VARINT] + spec_varint(m.hash_alg as u64)
}

/// What parsing a whole buffer as an HMAC wire message yields.
pub open spec fn spec_parse_hmac(b: Seq<u8>) -> Option<wire_ops::Hmac> {
    if b.len() == 0 {
        Option::Some(wire_ops::Hmac { hash_alg: 0i32 })
    } else if b[0] == KEY1_VARINT {
        match spec_parse_varint(b, 1) {
            Option::None => Option::None,
            Option::Some((v, j)) => if j == b.len() {
                Option::Some(wire_ops::Hmac { hash_alg: v as i32 })
            } else {
                Option::None
            },
        }
    } else {
        Option::None
    }
}

/// Encode an HMAC wire message.
pub fn encode_hmac(m: &wire_ops::Hmac) -> (r: Vec<u8>)
    ensures
        r@ == spec_enc_hmac(*m),
{
    let mut out: Vec<u8> = Vec::new();
    out.push(KEY1_VARINT);
    encode_varint(&mut out, #[verifier::truncate] (m.hash_alg as u64));
    proof {
        assert(out@ =~= spec_enc_hmac(*m));
    }
    out
}

/// Parse a whole buffer as an HMAC wire message.
pub fn parse_hmac(b: &Vec<u8>) -> (r: Option<wire_ops::Hmac>)
    ensures
        r == spec_parse_hmac(b@),
{
    if b.len() == 0 {
        return Option::Some(wire_ops::Hmac { hash_alg: 0 });
    }
    if b[0] != KEY1_VARINT {
        return Option::None;
    }
    match parse_varint(b, 1) {
        Option::None => Option::None,
        Option::Some((v, j)) => {
            if j == b.len() {
                Option::Some(wire_ops::Hmac { hash_alg: #[verifier::truncate] (v as i32) })
            } else {
                Option::None
            }
        },
    }
}

/// An HMAC message round-trips through its bytes.
pub proof fn lemma_hmac_roundtrip(m: wire_ops::Hmac)
    ensures
        spec_parse_hmac(spec_enc_hmac(m)) == Option::Some(m),
{
    let e = spec_enc_hmac(m);
    let n = m.hash_alg as u64;
    assert(e.subrange(1, 1 + spec_varint(n).len() as int) =~= spec_varint(n));
    lemma_parse_varint_prefix(n, e, 1);
    let ha = m.hash_alg;
    assert((ha as u64) as i32 == ha) by (bit_vector);
}

/// A varint is at most ten bytes long, and never empty.
pub proof fn lemma_varint_len(n: u64)
    ensures
        1 <= spec_varint(n).len(),
        spec_varint(n).len() <= 10,
        n < 0x80 ==> spec_varint(n).len() <= 1,
        n < 0x4000 ==> spec_varint(n).len() <= 2,
        n < 0x200000 ==> spec_varint(n).len() <= 3,
        n < 0x10000000 ==> spec_varint(n).len() <= 4,
        n < 0x800000000 ==> spec_varint(n).len() <= 5,
        n < 0x40000000000 ==> spec_varint(n).len() <= 6,
        n < 0x2000000000000 ==> spec_varint(n).len() <= 7,
        n < 0x100000000000000 ==> spec_varint(n).len() <= 8,
        n < 0x8000000000000000 ==> spec_varint(n).len() <= 9,
    decreases n,
{
    if n >= 128 {
        lemma_varint_len(n / 128);
    }
}

/// The bytes of the CBC-MAC wire message: it has no fields.
pub open spec fn spec_enc_cbc_mac(m: wire_ops::CbcMac) -> Seq<u8> {
    Seq::<u8>::empty()
}

/// What parsing a whole buffer as a CBC-MAC wire message yields: the
/// message has no fields, so only the empty buffer parses.
pub open spec fn spec_parse_cbc_mac(b: Seq<u8>) -> Option<wire_ops::CbcMac> {
    if b.len() == 0 {
        Option::Some(wire_ops::CbcMac {  })
    } else {
        Option::None
    }
}

/// The bytes of the CMAC wire message: it has no fields.
pub open spec fn spec_enc_cmac(m: wire_ops::Cmac) -> Seq<u8> {
    Seq::<u8>::empty()
}

/// What parsing a whole buffer as a CMAC wire message yields.
pub open spec fn spec_parse_cmac(b: Seq<u8>) -> Option<wire_ops::Cmac> {
    if b.len() == 0 {
        Option::Some(wire_ops::Cmac {  })
    } else {
        Option::None
    }
}

/// The bytes of a full-length MAC wire message: its discriminant, if set,
/// as a nested message in the field the variant names.
pub open spec fn spec_enc_full_length(m: wire_ops::FullLength) -> Seq<u8> {
    match m.variant {
        Option::None => Seq::<u8>::empty(),
        Option::Some(wire_ops::FullLengthVariant::Hmac(h)) => seq![KEY1_LD] + spec_ld(
            spec_enc_hmac(h),
        ),
        Option::Some(wire_ops::FullLengthVariant::CbcMac(c)) => seq![KEY2_LD] + spec_ld(
            spec_enc_cbc_mac(c),
        ),
        Option::Some(wire_ops::FullLengthVariant::Cmac(c)) => seq![KEY3_LD] + spec_ld(
            spec_enc_cmac(c),
        ),
    }
}

/// What parsing a whole buffer as a full-length MAC wire message yields:
/// an empty buffer leaves the discriminant unset, a single field sets it,
/// anything else fails.
pub open spec fn spec_parse_full_length(b: Seq<u8>) -> Option<wire_ops::FullLength> {
    if b.len() == 0 {
        Option::Some(wire_ops::FullLength { variant: Option::None })
    } else if b[0] == KEY1_LD {
        match spec_parse_ld(b, 1) {
            Option::None => Option::None,
            Option::Some((sub, j)) => if j == b.len() {
                match spec_parse_hmac(sub) {
                    Option::None => Option::None,
                    Option::Some(h) => Option::Some(
                        wire_ops::FullLength {
                            variant: Option::Some(wire_ops::FullLengthVariant::Hmac(h)),
                        },
                    ),
                }
            } else {
                Option::None
            },
        }
    } else if b[0] == KEY2_LD {
        match spec_parse_ld(b, 1) {
            Option::None => Option::None,
            Option::Some((sub, j)) => if j == b.len() {
                match spec_parse_cbc_mac(sub) {
                    Option::None => Option::None,
                    Option::Some(c) => Option::Some(
                        wire_ops::FullLength {
                            variant: Option::Some(wire_ops::FullLengthVariant::CbcMac(c)),
                        },
                    ),
                }
            } else {
                Option::None
            },
        }
    } else if b[0] == KEY3_LD {
        match spec_parse_ld(b, 1) {
            Option::None => Option::None,
            Option::Some((sub, j)) => if j == b.len() {
                match spec_parse_cmac(sub) {
                    Option::None => Option::None,
                    Option::Some(c) => Option::Some(
                        wire_ops::FullLength {
                            variant: Option::Some(wire_ops::FullLengthVariant::Cmac(c)),
                        },
                    ),
                }
            } else {
                Option::None
            },
        }
    } else {
        Option::None
    }
}

/// Encode a full-length MAC wire message.
pub fn encode_full_length(m: &wire_ops::FullLength) -> (r: Vec<u8>)
    ensures
        r@ == spec_enc_full_length(*m),
{
    let mut out: Vec<u8> = Vec::new();
    match m.variant {
        Option::None => {},
        Option::Some(wire_ops::FullLengthVariant::Hmac(h)) => {
            let mut sub = encode_hmac(&h);
            out.push(KEY1_LD);
            encode_varint(&mut out, sub.len() as u64);
            out.append(&mut sub);
        },
        Option::Some(wire_ops::FullLengthVariant::CbcMac(_)) => {
            out.push(KEY2_LD);
            encode_varint(&mut out, 0);
        },
        Option::Some(wire_ops::FullLengthVariant::Cmac(_)) => {
            out.push(KEY3_LD);
            encode_varint(&mut out, 0);
        },
    }
    proof {
        assert(out@ =~= spec_enc_full_length(*m));
    }
    out
}

/// Parse a whole buffer as a full-length MAC wire message.
pub fn parse_full_length(b: &Vec<u8>) -> (r: Option<wire_ops::FullLength>)
    ensures
        r == spec_parse_full_length(b@),
{
    if b.len() == 0 {
        return Option::Some(wire_ops::FullLength { variant: Option::None });
    }
    let key = b[0];
    if key != KEY1_LD && key != KEY2_LD && key != KEY3_LD {
        return Option::None;
    }
    match parse_ld(b, 1) {
        Option::None => Option::None,
        Option::Some((sub, j)) => {
            if j != b.len() {
                return Option::None;
            }
            if key == KEY1_LD {
                match parse_hmac(&sub) {
                    Option::None => Option::None,
                    Option::Some(h) => Option::Some(
                        wire_ops::FullLength {
                            variant: Option::Some(wire_ops::FullLengthVariant::Hmac(h)),
                        },
                    ),
                }
            } else if key == KEY2_LD {
                if sub.len() == 0 {
                    Option::Some(
                        wire_ops::FullLength {
                            variant: Option::Some(
                                wire_ops::FullLengthVariant::CbcMac(wire_ops::CbcMac {  }),
                            ),
                        },
                    )
                } else {
                    Option::None
                }
            } else {
                if sub.len() == 0 {
                    Option::Some(
                        wire_ops::FullLength {
                            variant: Option::Some(
                                wire_ops::FullLengthVariant::Cmac(wire_ops::Cmac {  }),
                            ),
                        },
                    )
                } else {
                    Option::None
                }
            }
        },
    }
}

/// The encoding of an HMAC message is at most eleven bytes.
pub proof fn lemma_enc_hmac_len(m: wire_ops::Hmac)
    ensures
        spec_enc_hmac(m).len() <= 11,
{
    lemma_varint_len(m.hash_alg as u64);
}

/// The encoding of a full-length MAC message is at most thirteen bytes.
pub proof fn lemma_enc_full_length_len(m: wire_ops::FullLength)
    ensures
        spec_enc_full_length(m).len() <= 13,
{
    match m.variant {
        Option::Some(wire_ops::FullLengthVariant::Hmac(h)) => {
            lemma_enc_hmac_len(h);
            lemma_varint_len(spec_enc_hmac(h).len() as u64);
        },
        _ => {},
    }
}

/// A full-length MAC message round-trips through its bytes.
pub proof fn lemma_full_length_byte_roundtrip(m: wire_ops::FullLength)
    ensures
        spec_parse_full_length(spec_enc_full_length(m)) == Option::Some(m),
{
    let e = spec_enc_full_length(m);
    match m.variant {
        Option::None => {},
        Option::Some(wire_ops::FullLengthVariant::Hmac(h)) => {
            let p = spec_enc_hmac(h);
            lemma_enc_hmac_len(h);
            assert(e.subrange(1, 1 + spec_ld(p).len() as int) =~= spec_ld(p));
            lemma_parse_ld_prefix(p, e, 1);
            lemma_hmac_roundtrip(h);
        },
        Option::Some(wire_ops::FullLengthVariant::CbcMac(_)) => {
            let p = Seq::<u8>::empty();
            assert(e.subrange(1, 1 + spec_ld(p).len() as int) =~= spec_ld(p));
            lemma_parse_ld_prefix(p, e, 1);
        },
        Option::Some(wire_ops::FullLengthVariant::Cmac(_)) => {
            let p = Seq::<u8>::empty();
            assert(e.subrange(1, 1 + spec_ld(p).len() as int) =~= spec_ld(p));
            lemma_parse_ld_prefix(p, e, 1);
        },
    }
}

/// The bytes of a truncated MAC wire message: the nested algorithm in
/// field 1 if set, then the truncation length in field 2.
pub open spec fn spec_enc_truncated(m: wire_ops::Truncated) -> Seq<u8> {
    (match m.mac_alg {
        Option::None => Seq::<u8>::empty(),
        Option::Some(fl) => seq![KEY1_LD] + spec_ld(spec_enc_full_length(fl)),
    }) + seq![KEY2_VARINT] + spec_varint(m.mac_length as u64)
}

/// What parsing a whole buffer as a truncated MAC wire message yields: an
/// optional nested algorithm, then the mandatory-by-layout length field.
pub open spec fn spec_parse_truncated(b: Seq<u8>) -> Option<wire_ops::Truncated> {
    let (mac_alg, i) = if b.len() > 0 && b[0] == KEY1_LD {
        match spec_parse_ld(b, 1) {
            Option::None => (Option::None, -1),
            Option::Some((sub, j)) => match spec_parse_full_length(sub) {
                Option::None => (Option::None, -1),
                Option::Some(fl) => (Option::Some(fl), j),
            },
        }
    } else {
        (Option::None, 0)
    };
    if i < 0 {
        Option::None
    } else if i < b.len() && b[i] == KEY2_VARINT {
        match spec_parse_varint(b, i + 1) {
            Option::None => Option::None,
            Option::Some((v, j)) => if j == b.len() {
                Option::Some(wire_ops::Truncated { mac_alg, mac_length: v as u32 })
            } else {
                Option::None
            },
        }
    } else if i == b.len() {
        Option::Some(wire_ops::Truncated { mac_alg, mac_length: 0u32 })
    } else {
        Option::None
    }
}

/// Encode a truncated MAC wire message.
pub fn encode_truncated(m: &wire_ops::Truncated) -> (r: Vec<u8>)
    ensures
        r@ == spec_enc_truncated(*m),
{
    let mut out: Vec<u8> = Vec::new();
    match m.mac_alg {
        Option::None => {},
        Option::Some(fl) => {
            let mut sub = encode_full_length(&fl);
            out.push(KEY1_LD);
            encode_varint(&mut out, sub.len() as u64);
            out.append(&mut sub);
        },
    }
    out.push(KEY2_VARINT);
    encode_varint(&mut out, m.mac_length as u64);
    proof {
        assert(out@ =~= spec_enc_truncated(*m));
    }
    out
}

/// Parse a whole buffer as a truncated MAC wire message.
pub fn parse_truncated(b: &Vec<u8>) -> (r: Option<wire_ops::Truncated>)
    ensures
        r == spec_parse_truncated(b@),
{
    let mut i: usize = 0;
    let mut mac_alg: Option<wire_ops::FullLength> = Option::None;
    if b.len() > 0 && b[0] == KEY1_LD {
        match parse_ld(b, 1) {
            Option::None => {
                return Option::None;
            },
            Option::Some((sub, j)) => {
                match parse_full_length(&sub) {
                    Option::None => {
                        return Option::None;
                    },
                    Option::Some(fl) => {
                        mac_alg = Option::Some(fl);
                        i = j;
                    },
                }
            },
        }
    }
    if i < b.len() && b[i] == KEY2_VARINT {
        match parse_varint(b, i + 1) {
            Option::None => Option::None,
            Option::Some((v, j)) => {
                if j == b.len() {
                    Option::Some(
                        wire_ops::Truncated {
                            mac_alg,
                            mac_length: #[verifier::truncate] (v as u32),
                        },
                    )
                } else {
                    Option::None
                }
            },
        }
    } else if i == b.len() {
        Option::Some(wire_ops::Truncated { mac_alg, mac_length: 0 })
    } else {
        Option::None
    }
}

/// The encoding of a truncated MAC message is at most 37 bytes.
pub proof fn lemma_enc_truncated_len(m: wire_ops::Truncated)
    ensures
        spec_enc_truncated(m).len() <= 37,
{
    match m.mac_alg {
        Option::Some(fl) => {
            lemma_enc_full_length_len(fl);
            lemma_varint_len(spec_enc_full_length(fl).len() as u64);
        },
        Option::None => {},
    }
    lemma_varint_len(m.mac_length as u64);
}

/// A truncated MAC message round-trips through its bytes.
pub proof fn lemma_truncated_byte_roundtrip(m: wire_ops::Truncated)
    ensures
        spec_parse_truncated(spec_enc_truncated(m)) == Option::Some(m),
{
    let e = spec_enc_truncated(m);
    let tail = seq![KEY2_VARINT] + spec_varint(m.mac_length as u64);
    let off = match m.mac_alg {
        Option::None => 0int,
        Option::Some(fl) => 1 + spec_ld(spec_enc_full_length(fl)).len() as int,
    };
    match m.mac_alg {
        Option::None => {},
        Option::Some(fl) => {
            let p = spec_enc_full_length(fl);
            lemma_enc_full_length_len(fl);
            assert(e[0] == KEY1_LD);
            assert(e.subrange(1, 1 + spec_ld(p).len() as int) =~= spec_ld(p));
            lemma_parse_ld_prefix(p, e, 1);
            lemma_full_length_byte_roundtrip(fl);
        },
    }
    assert(e[off] == KEY2_VARINT);
    let n = m.mac_length as u64;
    assert(e.subrange(off + 1, off + 1 + spec_varint(n).len() as int) =~= spec_varint(n));
    lemma_parse_varint_prefix(n, e, off + 1);
    let ml = m.mac_length;
    assert((ml as u64) as u32 == ml) by (bit_vector);
}

/// The bytes of a MAC wire message: its discriminant, if set, as a nested
/// message in the field the variant names.
pub open spec fn spec_enc_mac(m: wire_ops::Mac) -> Seq<u8> {
    match m.variant {
        Option::None => Seq::<u8>::empty(),
        Option::Some(wire_ops::MacVariant::FullLength(fl)) => seq![KEY1_LD] + spec_ld(
            spec_enc_full_length(fl),
        ),
        Option::Some(wire_ops::MacVariant::Truncated(t)) => seq![KEY2_LD] + spec_ld(
            spec_enc_truncated(t),
        ),
    }
}

/// What parsing a whole buffer as a MAC wire message yields.
pub open spec fn spec_parse_mac(b: Seq<u8>) -> Option<wire_ops::Mac> {
    if b.len() == 0 {
        Option::Some(wire_ops::Mac { variant: Option::None })
    } else if b[0] == KEY1_LD {
        match spec_parse_ld(b, 1) {
            Option::None => Option::None,
            Option::Some((sub, j)) => if j == b.len() {
                match spec_parse_full_length(sub) {
                    Option::None => Option::None,
                    Option::Some(fl) => Option::Some(
                        wire_ops::Mac {
                            variant: Option::Some(wire_ops::MacVariant::FullLength(fl)),
                        },
                    ),
                }
            } else {
                Option::None
            },
        }
    } else if b[0] == KEY2_LD {
        match spec_parse_ld(b, 1) {
            Option::None => Option::None,
            Option::Some((sub, j)) => if j == b.len() {
                match spec_parse_truncated(sub) {
                    Option::None => Option::None,
                    Option::Some(t) => Option::Some(
                        wire_ops::Mac {
                            variant: Option::Some(wire_ops::MacVariant::Truncated(t)),
                        },
                    ),
                }
            } else {
                Option::None
            },
        }
    } else {
        Option::None
    }
}

/// Encode a MAC wire message.
pub fn encode_mac(m: &wire_ops::Mac) -> (r: Vec<u8>)
    ensures
        r@ == spec_enc_mac(*m),
{
    let mut out: Vec<u8> = Vec::new();
    match m.variant {
        Option::None => {},
        Option::Some(wire_ops::MacVariant::FullLength(fl)) => {
            let mut sub = encode_full_length(&fl);
            out.push(KEY1_LD);
            encode_varint(&mut out, sub.len() as u64);
            out.append(&mut sub);
        },
        Option::Some(wire_ops::MacVariant::Truncated(t)) => {
            let mut sub = encode_truncated(&t);
            out.push(KEY2_LD);
            encode_varint(&mut out, sub.len() as u64);
            out.append(&mut sub);
        },
    }
    proof {
        assert(out@ =~= spec_enc_mac(*m));
    }
    out
}

/// Parse a whole buffer as a MAC wire message.
pub fn parse_mac(b: &Vec<u8>) -> (r: Option<wire_ops::Mac>)
    ensures
        r == spec_parse_mac(b@),
{
    if b.len() == 0 {
        return Option::Some(wire_ops::Mac { variant: Option::None });
    }
    let key = b[0];
    if key != KEY1_LD && key != KEY2_LD {
        return Option::None;
    }
    match parse_ld(b, 1) {
        Option::None => Option::None,
        Option::Some((sub, j)) => {
            if j != b.len() {
                return Option::None;
            }
            if key == KEY1_LD {
                match parse_full_length(&sub) {
                    Option::None => Option::None,
                    Option::Some(fl) => Option::Some(
                        wire_ops::Mac {
                            variant: Option::Some(wire_ops::MacVariant::FullLength(fl)),
                        },
                    ),
                }
            } else {
                match parse_truncated(&sub) {
                    Option::None => Option::None,
                    Option::Some(t) => Option::Some(
                        wire_ops::Mac {
                            variant: Option::Some(wire_ops::MacVariant::Truncated(t)),
                        },
                    ),
                }
            }
        },
    }
}

/// The encoding of a MAC message is at most 48 bytes.
pub proof fn lemma_enc_mac_len(m: wire_ops::Mac)
    ensures
        spec_enc_mac(m).len() <= 48,
{
    match m.variant {
        Option::Some(wire_ops::MacVariant::FullLength(fl)) => {
            lemma_enc_full_length_len(fl);
            lemma_varint_len(spec_enc_full_length(fl).len() as u64);
        },
        Option::Some(wire_ops::MacVariant::Truncated(t)) => {
            lemma_enc_truncated_len(t);
            lemma_varint_len(spec_enc_truncated(t).len() as u64);
        },
        Option::None => {},
    }
}

/// A MAC message round-trips through its bytes: parsing the encoding of
/// any MAC wire message yields that message back.
pub proof fn lemma_mac_byte_roundtrip(m: wire_ops::Mac)
    ensures
        spec_parse_mac(spec_enc_mac(m)) == Option::Some(m),
{
    let e = spec_enc_mac(m);
    match m.variant {
        Option::None => {},
        Option::Some(wire_ops::MacVariant::FullLength(fl)) => {
            let p = spec_enc_full_length(fl);
            lemma_enc_full_length_len(fl);
            assert(e.subrange(1, 1 + spec_ld(p).len() as int) =~= spec_ld(p));
            lemma_parse_ld_prefix(p, e, 1);
            lemma_full_length_byte_roundtrip(fl);
        },
        Option::Some(wire_ops::MacVariant::Truncated(t)) => {
            let p = spec_enc_truncated(t);
            lemma_enc_truncated_len(t);
            assert(e.subrange(1, 1 + spec_ld(p).len() as int) =~= spec_ld(p));
            lemma_parse_ld_prefix(p, e, 1);
            lemma_truncated_byte_roundtrip(t);
        },
    }
}

/// What parsing an optional byte-buffer field with the given key at
/// position `i` yields: the payload and the position after it when the key
/// is present, the empty default and the same position when it is not.
pub open spec fn spec_parse_bytes_field(b: Seq<u8>, i: int, key: u8) -> Option<(Seq<u8>, int)> {
    if 0 <= i < b.len() && b[i] == key {
        match spec_parse_ld(b, i + 1) {
            Option::None => Option::None,
            Option::Some((p, j)) => Option::Some((p, j)),
        }
    } else {
        Option::Some((Seq::<u8>::empty(), i))
    }
}

/// What parsing an optional string field with the given key at position
/// `i` yields; a payload that is not valid UTF-8 fails the parse.
pub open spec fn spec_parse_string_field(b: Seq<u8>, i: int, key: u8) -> Option<(Seq<char>, int)> {
    if 0 <= i < b.len() && b[i] == key {
        match spec_parse_ld(b, i + 1) {
            Option::None => Option::None,
            Option::Some((p, j)) => if valid_utf8(p) {
                Option::Some((decode_utf8(p), j))
            } else {
                Option::None
            },
        }
    } else {
        Option::Some((Seq::<char>::empty(), i))
    }
}

/// What parsing an optional nested MAC message field with the given key at
/// position `i` yields.
pub open spec fn spec_parse_mac_field(b: Seq<u8>, i: int, key: u8) -> Option<
    (Option<wire_ops::Mac>, int),
> {
    if 0 <= i < b.len() && b[i] == key {
        match spec_parse_ld(b, i + 1) {
            Option::None => Option::None,
            Option::Some((p, j)) => match spec_parse_mac(p) {
                Option::None => Option::None,
                Option::Some(m) => Option::Some((Option::Some(m), j)),
            },
        }
    } else {
        Option::Some((Option::None, i))
    }
}

/// Parse an optional byte-buffer field with the given key at position `i`.
pub fn parse_bytes_field(b: &Vec<u8>, i: usize, key: u8) -> (r: Option<(Vec<u8>, usize)>)
    requires
        i <= b.len(),
    ensures
        match r {
            Option::Some(pair) => spec_parse_bytes_field(b@, i as int, key) == Option::Some(
                (pair.0@, pair.1 as int),
            ) && i <= pair.1 <= b@.len(),
            Option::None => spec_parse_bytes_field(b@, i as int, key) is None,
        },
{
    if i < b.len() && b[i] == key {
        match parse_ld(b, i + 1) {
            Option::None => Option::None,
            Option::Some((p, j)) => Option::Some((p, j)),
        }
    } else {
        Option::Some((Vec::new(), i))
    }
}

/// Parse an optional string field with the given key at position `i`.
pub fn parse_string_field(b: &Vec<u8>, i: usize, key: u8) -> (r: Option<(String, usize)>)
    requires
        i <= b.len(),
    ensures
        match r {
            Option::Some(pair) => spec_parse_string_field(b@, i as int, key) == Option::Some(
                (pair.0@, pair.1 as int),
            ) && i <= pair.1 <= b@.len(),
            Option::None => spec_parse_string_field(b@, i as int, key) is None,
        },
{
    if i < b.len() && b[i] == key {
        match parse_ld(b, i + 1) {
            Option::None => Option::None,
            Option::Some((p, j)) => match bytes_to_string(p) {
                Option::None => Option::None,
                Option::Some(s) => Option::Some((s, j)),
            },
        }
    } else {
        Option::Some((String::new(), i))
    }
}

/// Parse an optional nested MAC message field with the given key at
/// position `i`.
pub fn parse_mac_field(b: &Vec<u8>, i: usize, key: u8) -> (r: Option<
    (Option<wire_ops::Mac>, usize),
>)
    requires
        i <= b.len(),
    ensures
        match r {
            Option::Some(pair) => spec_parse_mac_field(b@, i as int, key) == Option::Some(
                (pair.0, pair.1 as int),
            ) && i <= pair.1 <= b@.len(),
            Option::None => spec_parse_mac_field(b@, i as int, key) is None,
        },
{
    if i < b.len() && b[i] == key {
        match parse_ld(b, i + 1) {
            Option::None => Option::None,
            Option::Some((p, j)) => match parse_mac(&p) {
                Option::None => Option::None,
                Option::Some(m) => Option::Some((Option::Some(m), j)),
            },
        }
    } else {
        Option::Some((Option::None, i))
    }
}

/// Append a length-delimited field with the given key and payload to `out`.
fn push_ld_field(out: &mut Vec<u8>, key: u8, payload: Vec<u8>)
    ensures
        final(out)@ == old(out)@ + seq![key] + spec_ld(payload@),
{
    let ghost p0 = payload@;
    let mut buf = payload;
    out.push(key);
    encode_varint(out, buf.len() as u64);
    out.append(&mut buf);
    proof {
        assert(final(out)@ =~= old(out)@ + seq![key] + spec_ld(p0));
    }
}

/// The bytes of a MAC compute operation wire message: the key name in
/// field 1, the algorithm (if set) in field 2, the input in field 3.
pub open spec fn spec_enc_mac_compute_op(v: wire_ops::MacComputeOperationView) -> Seq<u8> {
    seq![KEY1_LD] + spec_ld(encode_utf8(v.key_name)) + (match v.alg {
        Option::None => Seq::<u8>::empty(),
        Option::Some(m) => seq![KEY2_LD] + spec_ld(spec_enc_mac(m)),
    }) + seq![KEY3_LD] + spec_ld(v.input)
}

/// What parsing a whole buffer as a MAC compute operation wire message
/// yields.
pub open spec fn spec_parse_mac_compute_op(b: Seq<u8>) -> Option<
    wire_ops::MacComputeOperationView,
> {
    match spec_parse_string_field(b, 0, KEY1_LD) {
        Option::None => Option::None,
        Option::Some((key_name, i1)) => match spec_parse_mac_field(b, i1, KEY2_LD) {
            Option::None => Option::None,
            Option::Some((alg, i2)) => match spec_parse_bytes_field(b, i2, KEY3_LD) {
                Option::None => Option::None,
                Option::Some((input, i3)) => if i3 == b.len() {
                    Option::Some(wire_ops::MacComputeOperationView { key_name, alg, input })
                } else {
                    Option::None
                },
            },
        },
    }
}

/// Encode a MAC compute operation wire message.
pub fn encode_mac_compute_op(m: &wire_ops::MacComputeOperation) -> (r: Vec<u8>)
    ensures
        r@ == spec_enc_mac_compute_op(m@),
{
    let mut out: Vec<u8> = Vec::new();
    push_ld_field(&mut out, KEY1_LD, string_to_bytes(&m.key_name));
    match m.alg {
        Option::None => {},
        Option::Some(mac) => {
            push_ld_field(&mut out, KEY2_LD, encode_mac(&mac));
        },
    }
    push_ld_field(&mut out, KEY3_LD, subvec(&m.input, 0, m.input.len()));
    proof {
        assert(m.input@.subrange(0, m.input@.len() as int) =~= m.input@);
        assert(out@ =~= spec_enc_mac_compute_op(m@));
    }
    out
}

/// Parse a whole buffer as a MAC compute operation wire message.
pub fn parse_mac_compute_op(b: &Vec<u8>) -> (r: Option<wire_ops::MacComputeOperation>)
    ensures
        match r {
            Option::Some(m) => spec_parse_mac_compute_op(b@) == Option::Some(m@),
            Option::None => spec_parse_mac_compute_op(b@) is None,
        },
{
    let (key_name, i1) = match parse_string_field(b, 0, KEY1_LD) {
        Option::None => {
            return Option::None;
        },
        Option::Some(pair) => pair,
    };
    let (alg, i2) = match parse_mac_field(b, i1, KEY2_LD) {
        Option::None => {
            return Option::None;
        },
        Option::Some(pair) => pair,
    };
    let (input, i3) = match parse_bytes_field(b, i2, KEY3_LD) {
        Option::None => {
            return Option::None;
        },
        Option::Some(pair) => pair,
    };
    if i3 == b.len() {
        Option::Some(wire_ops::MacComputeOperation { key_name, alg, input })
    } else {
        Option::None
    }
}

/// The bytes of a MAC compute result wire message: the MAC value in
/// field 1.
pub open spec fn spec_enc_mac_compute_result(v: wire_ops::MacComputeResultView) -> Seq<u8> {
    seq![KEY1_LD] + spec_ld(v.mac)
}

/// What parsing a whole buffer as a MAC compute result wire message
/// yields.
pub open spec fn spec_parse_mac_compute_result(b: Seq<u8>) -> Option<
    wire_ops::MacComputeResultView,
> {
    match spec_parse_bytes_field(b, 0, KEY1_LD) {
        Option::None => Option::None,
        Option::Some((mac, i1)) => if i1 == b.len() {
            Option::Some(wire_ops::MacComputeResultView { mac })
        } else {
            Option::None
        },
    }
}

/// Encode a MAC compute result wire message.
pub fn encode_mac_compute_result(m: &wire_ops::MacComputeResult) -> (r: Vec<u8>)
    ensures
        r@ == spec_enc_mac_compute_result(m@),
{
    let mut out: Vec<u8> = Vec::new();
    push_ld_field(&mut out, KEY1_LD, subvec(&m.mac, 0, m.mac.len()));
    proof {
        assert(m.mac@.subrange(0, m.mac@.len() as int) =~= m.mac@);
        assert(out@ =~= spec_enc_mac_compute_result(m@));
    }
    out
}

/// Parse a whole buffer as a MAC compute result wire message.
pub fn parse_mac_compute_result(b: &Vec<u8>) -> (r: Option<wire_ops::MacComputeResult>)
    ensures
        match r {
            Option::Some(m) => spec_parse_mac_compute_result(b@) == Option::Some(m@),
            Option::None => spec_parse_mac_compute_result(b@) is None,
        },
{
    let (mac, i1) = match parse_bytes_field(b, 0, KEY1_LD) {
        Option::None => {
            return Option::None;
        },
        Option::Some(pair) => pair,
    };
    if i1 == b.len() {
        Option::Some(wire_ops::MacComputeResult { mac })
    } else {
        Option::None
    }
}

/// The bytes of a MAC verify operation wire message: the key name in
/// field 1, the algorithm (if set) in field 2, the input in field 3, the
/// reference MAC in field 4.
pub open spec fn spec_enc_mac_verify_op(v: wire_ops::MacVerifyOperationView) -> Seq<u8> {
    seq![KEY1_LD] + spec_ld(encode_utf8(v.key_name)) + (match v.alg {
        Option::None => Seq::<u8>::empty(),
        Option::Some(m) => seq![KEY2_LD] + spec_ld(spec_enc_mac(m)),
    }) + seq![KEY3_LD] + spec_ld(v.input) + seq![KEY4_LD] + spec_ld(v.mac)
}

/// What parsing a whole buffer as a MAC verify operation wire message
/// yields.
pub open spec fn spec_parse_mac_verify_op(b: Seq<u8>) -> Option<wire_ops::MacVerifyOperationView> {
    match spec_parse_string_field(b, 0, KEY1_LD) {
        Option::None => Option::None,
        Option::Some((key_name, i1)) => match spec_parse_mac_field(b, i1, KEY2_LD) {
            Option::None => Option::None,
            Option::Some((alg, i2)) => match spec_parse_bytes_field(b, i2, KEY3_LD) {
                Option::None => Option::None,
                Option::Some((input, i3)) => match spec_parse_bytes_field(b, i3, KEY4_LD) {
                    Option::None => Option::None,
                    Option::Some((mac, i4)) => if i4 == b.len() {
                        Option::Some(
                            wire_ops::MacVerifyOperationView { key_name, alg, input, mac },
                        )
                    } else {
                        Option::None
                    },
                },
            },
        },
    }
}

/// Encode a MAC verify operation wire message.
pub fn encode_mac_verify_op(m: &wire_ops::MacVerifyOperation) -> (r: Vec<u8>)
    ensures
        r@ == spec_enc_mac_verify_op(m@),
{
    let mut out: Vec<u8> = Vec::new();
    push_ld_field(&mut out, KEY1_LD, string_to_bytes(&m.key_name));
    match m.alg {
        Option::None => {},
        Option::Some(mac) => {
            push_ld_field(&mut out, KEY2_LD, encode_mac(&mac));
        },
    }
    push_ld_field(&mut out, KEY3_LD, subvec(&m.input, 0, m.input.len()));
    push_ld_field(&mut out, KEY4_LD, subvec(&m.mac, 0, m.mac.len()));
    proof {
        assert(m.input@.subrange(0, m.input@.len() as int) =~= m.input@);
        assert(m.mac@.subrange(0, m.mac@.len() as int) =~= m.mac@);
        assert(out@ =~= spec_enc_mac_verify_op(m@));
    }
    out
}

/// Parse a whole buffer as a MAC verify operation wire message.
pub fn parse_mac_verify_op(b: &Vec<u8>) -> (r: Option<wire_ops::MacVerifyOperation>)
    ensures
        match r {
            Option::Some(m) => spec_parse_mac_verify_op(b@) == Option::Some(m@),
            Option::None => spec_parse_mac_verify_op(b@) is None,
        },
{
    let (key_name, i1) = match parse_string_field(b, 0, KEY1_LD) {
        Option::None => {
            return Option::None;
        },
        Option::Some(pair) => pair,
    };
    let (alg, i2) = match parse_mac_field(b, i1, KEY2_LD) {
        Option::None => {
            return Option::None;
        },
        Option::Some(pair) => pair,
    };
    let (input, i3) = match parse_bytes_field(b, i2, KEY3_LD) {
        Option::None => {
            return Option::None;
        },
        Option::Some(pair) => pair,
    };
    let (mac, i4) = match parse_bytes_field(b, i3, KEY4_LD) {
        Option::None => {
            return Option::None;
        },
        Option::Some(pair) => pair,
    };
    if i4 == b.len() {
        Option::Some(wire_ops::MacVerifyOperation { key_name, alg, input, mac })
    } else {
        Option::None
    }
}

/// The bytes of a MAC verify result wire message: it has no fields.
pub open spec fn spec_enc_mac_verify_result(m: wire_ops::MacVerifyResult) -> Seq<u8> {
    Seq::<u8>::empty()
}

/// What parsing a whole buffer as a MAC verify result wire message yields:
/// only the empty buffer parses.
pub open spec fn spec_parse_mac_verify_result(b: Seq<u8>) -> Option<wire_ops::MacVerifyResult> {
    if b.len() == 0 {
        Option::Some(wire_ops::MacVerifyResult {  })
    } else {
        Option::None
    }
}

/// Encode a MAC verify result wire message.
pub fn encode_mac_verify_result(m: &wire_ops::MacVerifyResult) -> (r: Vec<u8>)
    ensures
        r@ == spec_enc_mac_verify_result(*m),
{
    let out: Vec<u8> = Vec::new();
    proof {
        assert(out@ =~= spec_enc_mac_verify_result(*m));
    }
    out
}

/// Parse a whole buffer as a MAC verify result wire message.
pub fn parse_mac_verify_result(b: &Vec<u8>) -> (r: Option<wire_ops::MacVerifyResult>)
    ensures
        r == spec_parse_mac_verify_result(b@),
{
    if b.len() == 0 {
        Option::Some(wire_ops::MacVerifyResult {  })
    } else {
        Option::None
    }
}

/// A parsed length-delimited payload is no longer than its buffer, and the
/// parse makes progress.
pub proof fn lemma_parse_ld_wf(b: Seq<u8>, i: int)
    requires
        0 <= i,
    ensures
        spec_parse_ld(b, i) matches Option::Some(pair) ==> pair.0.len() <= b.len() && i < pair.1
            <= b.len(),
{
    lemma_parse_varint_bounds(b, i);
}

/// A parsed byte-buffer field is no longer than its buffer, and the parse
/// never moves backwards.
pub proof fn lemma_parse_bytes_field_wf(b: Seq<u8>, i: int, key: u8)
    requires
        0 <= i <= b.len(),
    ensures
        spec_parse_bytes_field(b, i, key) matches Option::Some(pair) ==> pair.0.len() <= b.len()
            && i <= pair.1 <= b.len(),
{
    lemma_parse_ld_wf(b, i + 1);
}

/// A parsed string field's encoding is no longer than its buffer, and the
/// parse never moves backwards.
pub proof fn lemma_parse_string_field_wf(b: Seq<u8>, i: int, key: u8)
    requires
        0 <= i <= b.len(),
    ensures
        spec_parse_string_field(b, i, key) matches Option::Some(pair) ==> encode_utf8(
            pair.0,
        ).len() <= b.len() && i <= pair.1 <= b.len(),
{
    lemma_parse_ld_wf(b, i + 1);
    if 0 <= i < b.len() && b[i] == key {
        match spec_parse_ld(b, i + 1) {
            Option::Some((p, j)) => {
                if valid_utf8(p) {
                    vstd::utf8::decode_utf8_encode_utf8(p);
                }
            },
            Option::None => {},
        }
    } else {
        assert(encode_utf8(Seq::<char>::empty()) =~= Seq::<u8>::empty());
    }
}

/// A parsed nested-MAC field never moves the position backwards.
pub proof fn lemma_parse_mac_field_wf(b: Seq<u8>, i: int, key: u8)
    requires
        0 <= i <= b.len(),
    ensures
        spec_parse_mac_field(b, i, key) matches Option::Some(pair) ==> i <= pair.1 <= b.len(),
{
    lemma_parse_ld_wf(b, i + 1);
}

/// A MAC compute operation message whose fields fit the machine's memory
/// round-trips through its bytes.
pub proof fn lemma_mac_compute_op_byte_roundtrip(v: wire_ops::MacComputeOperationView)
    requires
        encode_utf8(v.key_name).len() <= usize::MAX,
        v.input.len() <= usize::MAX,
    ensures
        spec_parse_mac_compute_op(spec_enc_mac_compute_op(v)) == Option::Some(v),
{
    let e = spec_enc_mac_compute_op(v);
    let kb = encode_utf8(v.key_name);
    // field 1: the key name
    assert(e[0] == KEY1_LD);
    assert(e.subrange(1, 1 + spec_ld(kb).len() as int) =~= spec_ld(kb));
    lemma_parse_ld_prefix(kb, e, 1);
    vstd::utf8::encode_utf8_valid_utf8(v.key_name);
    vstd::utf8::encode_utf8_decode_utf8(v.key_name);
    let i1 = 1 + spec_ld(kb).len() as int;
    assert(spec_parse_string_field(e, 0, KEY1_LD) == Option::Some((v.key_name, i1)));
    // field 2: the algorithm, if set
    let i2 = match v.alg {
        Option::None => i1,
        Option::Some(m) => i1 + 1 + spec_ld(spec_enc_mac(m)).len() as int,
    };
    match v.alg {
        Option::None => {
            assert(e[i1] == KEY3_LD);
            assert(spec_parse_mac_field(e, i1, KEY2_LD) == Option::Some(
                (Option::None::<wire_ops::Mac>, i1),
            ));
        },
        Option::Some(m) => {
            let p = spec_enc_mac(m);
            lemma_enc_mac_len(m);
            assert(e[i1] == KEY2_LD);
            assert(e.subrange(i1 + 1, i1 + 1 + spec_ld(p).len() as int) =~= spec_ld(p));
            lemma_parse_ld_prefix(p, e, i1 + 1);
            lemma_mac_byte_roundtrip(m);
            assert(spec_parse_mac_field(e, i1, KEY2_LD) == Option::Some((v.alg, i2)));
        },
    }
    // field 3: the input
    assert(e[i2] == KEY3_LD);
    assert(e.subrange(i2 + 1, i2 + 1 + spec_ld(v.input).len() as int) =~= spec_ld(v.input));
    lemma_parse_ld_prefix(v.input, e, i2 + 1);
    let i3 = i2 + 1 + spec_ld(v.input).len() as int;
    assert(i3 == e.len());
}

/// A parsed MAC compute operation's fields are no longer than the buffer
/// they came from.
pub proof fn lemma_parse_mac_compute_op_wf(b: Seq<u8>)
    ensures
        spec_parse_mac_compute_op(b) matches Option::Some(v) ==> encode_utf8(v.key_name).len()
            <= b.len() && v.input.len() <= b.len(),
{
    lemma_parse_string_field_wf(b, 0, KEY1_LD);
    match spec_parse_string_field(b, 0, KEY1_LD) {
        Option::Some((key_name, i1)) => {
            lemma_parse_mac_field_wf(b, i1, KEY2_LD);
            match spec_parse_mac_field(b, i1, KEY2_LD) {
                Option::Some((alg, i2)) => {
                    lemma_parse_bytes_field_wf(b, i2, KEY3_LD);
                },
                Option::None => {},
            }
        },
        Option::None => {},
    }
}

/// A MAC compute result message whose field fits the machine's memory
/// round-trips through its bytes.
pub proof fn lemma_mac_compute_result_byte_roundtrip(v: wire_ops::MacComputeResultView)
    requires
        v.mac.len() <= usize::MAX,
    ensures
        spec_parse_mac_compute_result(spec_enc_mac_compute_result(v)) == Option::Some(v),
{
    let e = spec_enc_mac_compute_result(v);
    assert(e[0] == KEY1_LD);
    assert(e.subrange(1, 1 + spec_ld(v.mac).len() as int) =~= spec_ld(v.mac));
    lemma_parse_ld_prefix(v.mac, e, 1);
}

/// A parsed MAC compute result's field is no longer than the buffer it
/// came from.
pub proof fn lemma_parse_mac_compute_result_wf(b: Seq<u8>)
    ensures
        spec_parse_mac_compute_result(b) matches Option::Some(v) ==> v.mac.len() <= b.len(),
{
    lemma_parse_bytes_field_wf(b, 0, KEY1_LD);
}

/// A MAC verify operation message whose fields fit the machine's memory
/// round-trips through its bytes.
pub proof fn lemma_mac_verify_op_byte_roundtrip(v: wire_ops::MacVerifyOperationView)
    requires
        encode_utf8(v.key_name).len() <= usize::MAX,
        v.input.len() <= usize::MAX,
        v.mac.len() <= usize::MAX,
    ensures
        spec_parse_mac_verify_op(spec_enc_mac_verify_op(v)) == Option::Some(v),
{
    let e = spec_enc_mac_verify_op(v);
    let kb = encode_utf8(v.key_name);
    // field 1: the key name
    assert(e[0] == KEY1_LD);
    assert(e.subrange(1, 1 + spec_ld(kb).len() as int) =~= spec_ld(kb));
    lemma_parse_ld_prefix(kb, e, 1);
    vstd::utf8::encode_utf8_valid_utf8(v.key_name);
    vstd::utf8::encode_utf8_decode_utf8(v.key_name);
    let i1 = 1 + spec_ld(kb).len() as int;
    assert(spec_parse_string_field(e, 0, KEY1_LD) == Option::Some((v.key_name, i1)));
    // field 2: the algorithm, if set
    let i2 = match v.alg {
        Option::None => i1,
        Option::Some(m) => i1 + 1 + spec_ld(spec_enc_mac(m)).len() as int,
    };
    match v.alg {
        Option::None => {
            assert(e[i1] == KEY3_LD);
            assert(spec_parse_mac_field(e, i1, KEY2_LD) == Option::Some(
                (Option::None::<wire_ops::Mac>, i1),
            ));
        },
        Option::Some(m) => {
            let p = spec_enc_mac(m);
            lemma_enc_mac_len(m);
            assert(e[i1] == KEY2_LD);
            assert(e.subrange(i1 + 1, i1 + 1 + spec_ld(p).len() as int) =~= spec_ld(p));
            lemma_parse_ld_prefix(p, e, i1 + 1);
            lemma_mac_byte_roundtrip(m);
            assert(spec_parse_mac_field(e, i1, KEY2_LD) == Option::Some((v.alg, i2)));
        },
    }
    // field 3: the input
    assert(e[i2] == KEY3_LD);
    assert(e.subrange(i2 + 1, i2 + 1 + spec_ld(v.input).len() as int) =~= spec_ld(v.input));
    lemma_parse_ld_prefix(v.input, e, i2 + 1);
    let i3 = i2 + 1 + spec_ld(v.input).len() as int;
    // field 4: the reference MAC
    assert(e[i3] == KEY4_LD);
    assert(e.subrange(i3 + 1, i3 + 1 + spec_ld(v.mac).len() as int) =~= spec_ld(v.mac));
    lemma_parse_ld_prefix(v.mac, e, i3 + 1);
    let i4 = i3 + 1 + spec_ld(v.mac).len() as int;
    assert(i4 == e.len());
}

/// A parsed MAC verify operation's fields are no longer than the buffer
/// they came from.
pub proof fn lemma_parse_mac_verify_op_wf(b: Seq<u8>)
    ensures
        spec_parse_mac_verify_op(b) matches Option::Some(v) ==> encode_utf8(v.key_name).len()
            <= b.len() && v.input.len() <= b.len() && v.mac.len() <= b.len(),
{
    lemma_parse_string_field_wf(b, 0, KEY1_LD);
    match spec_parse_string_field(b, 0, KEY1_LD) {
        Option::Some((key_name, i1)) => {
            lemma_parse_mac_field_wf(b, i1, KEY2_LD);
            match spec_parse_mac_field(b, i1, KEY2_LD) {
                Option::Some((alg, i2)) => {
                    lemma_parse_bytes_field_wf(b, i2, KEY3_LD);
                    match spec_parse_bytes_field(b, i2, KEY3_LD) {
                        Option::Some((input, i3)) => {
                            lemma_parse_bytes_field_wf(b, i3, KEY4_LD);
                        },
                        Option::None => {},
                    }
                },
                Option::None => {},
            }
        },
        Option::None => {},
    }
}

/// A MAC verify result message round-trips through its bytes.
pub proof fn lemma_mac_verify_result_byte_roundtrip(v: wire_ops::MacVerifyResult)
    ensures
        spec_parse_mac_verify_result(spec_enc_mac_verify_result(v)) == Option::Some(v),
{
}

} // verus!
