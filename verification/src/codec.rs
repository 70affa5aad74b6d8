//! Digest and text encodings the catalog relies on: BLAKE3 digests, the
//! unpadded URL-safe and padded standard base64 alphabets, and big-endian
//! integer framing.
use vstd::prelude::*;
use base64::engine::general_purpose::{STANDARD, URL_SAFE_NO_PAD};
use base64::Engine as _;

verus! {

broadcast use vstd::seq::group_seq_axioms;

/// BLAKE3 digest of `input`.
pub uninterp spec fn blake3_digest(input: Seq<u8>) -> Seq<u8>;

/// Calls `blake3::hash`. The contract claims only that the 32 returned bytes
/// are the BLAKE3 digest of exactly the given input, a function of the input
/// alone.
#[verifier::external_body]
pub(crate) fn blake3_hash(input: &[u8]) -> (r: [u8; 32])
    ensures
        r@ == blake3_digest(input@),
{
    *blake3::hash(input).as_bytes()
}

/// Unpadded URL-safe base64 text of `bytes`.
pub uninterp spec fn base64url_text(bytes: Seq<u8>) -> Seq<char>;

/// Bytes that an unpadded URL-safe base64 text decodes to, if it is valid.
pub uninterp spec fn base64url_bytes(text: Seq<char>) -> Option<Seq<u8>>;

/// Standard padded base64 text of `bytes`.
pub uninterp spec fn base64_standard_text(bytes: Seq<u8>) -> Seq<char>;

/// Length of unpadded base64 text for `n` input bytes: four characters per
/// complete three-byte group, then two or three for a trailing partial group.
pub open spec fn unpadded_len(n: nat) -> nat {
    4 * (n / 3) + if n % 3 == 0 { 0nat } else if n % 3 == 1 { 2nat } else { 3nat }
}

/// Length of padded base64 text for `n` input bytes.
pub open spec fn padded_len(n: nat) -> nat {
    4 * (n / 3) + if n % 3 == 0 { 0nat } else { 4nat }
}

/// Calls `URL_SAFE_NO_PAD.encode` of the base64 crate. The contract claims
/// the text is the unpadded URL-safe encoding of exactly `bytes`, that its
/// length is `unpadded_len`, and that decoding it gives `bytes` back. The
/// crate's encoder panics when the output length overflows `usize`, which
/// the bound in `requires` excludes.
#[verifier::external_body]
pub(crate) fn base64url_encode(bytes: &[u8]) -> (r: String)
    requires
        bytes@.len() <= usize::MAX / 2,
    ensures
        r@ == base64url_text(bytes@),
        r@.len() == unpadded_len(bytes@.len()),
        base64url_bytes(r@) == Some(bytes@),
{
    URL_SAFE_NO_PAD.encode(bytes)
}

/// Calls `URL_SAFE_NO_PAD.decode` of the base64 crate on the text's bytes.
/// The contract claims the result is `Some` exactly when the text is valid
/// unpadded URL-safe base64, and then holds the decoded bytes, which are
/// never more than the text's characters (three bytes per four).
#[verifier::external_body]
pub(crate) fn base64url_decode(text: &str) -> (r: Option<Vec<u8>>)
    ensures
        r is Some <==> base64url_bytes(text@) is Some,
        r matches Some(v) ==> base64url_bytes(text@) == Some(v@),
        r matches Some(v) ==> v@.len() <= text@.len(),
{
    URL_SAFE_NO_PAD.decode(text.as_bytes()).ok()
}

/// Calls `STANDARD.encode` of the base64 crate. The contract claims the text
/// is the padded standard encoding of exactly `bytes` and that its length is
/// `padded_len`. The bound in `requires` excludes the crate's length-overflow
/// panic.
#[verifier::external_body]
pub(crate) fn base64_standard_encode(bytes: &[u8]) -> (r: String)
    requires
        bytes@.len() <= usize::MAX / 2,
    ensures
        r@ == base64_standard_text(bytes@),
        r@.len() == padded_len(bytes@.len()),
{
    STANDARD.encode(bytes)
}

/// Byte `i` (0 = most significant) of the big-endian encoding of `x`.
pub open spec fn be_byte(x: u64, i: int) -> u8 {
    ((x >> ((7 - i) * 8) as u64) & 0xff) as u8
}

/// Big-endian eight-byte encoding of `x`.
pub open spec fn be64(x: u64) -> Seq<u8> {
    Seq::new(8, |i: int| be_byte(x, i))
}

/// Big-endian four-byte encoding of `x`.
pub open spec fn be32(x: u32) -> Seq<u8> {
    Seq::new(4, |i: int| be32_byte(x, i))
}

/// Byte `i` (0 = most significant) of the big-endian encoding of `x`.
pub open spec fn be32_byte(x: u32, i: int) -> u8 {
    ((x >> ((3 - i) * 8) as u32) & 0xff) as u8
}

/// Appends the big-endian encoding of `x`.
pub fn push_be64(out: &mut Vec<u8>, x: u64)
    ensures
        final(out)@ == old(out)@ + be64(x),
{
    let mut i: u64 = 0;
    while i < 8
        invariant
            i <= 8,
            out@.len() == old(out)@.len() + i,
            forall|j: int| 0 <= j < old(out)@.len() ==> out@[j] == old(out)@[j],
            forall|j: int| 0 <= j < i ==> out@[old(out)@.len() + j] == be_byte(x, j),
        decreases 8 - i,
    {
        out.push(((x >> ((7 - i) * 8)) & 0xff) as u8);
        i = i + 1;
    }
    assert(out@ =~= old(out)@ + be64(x));
}

/// Appends the big-endian encoding of `x`.
pub fn push_be32(out: &mut Vec<u8>, x: u32)
    ensures
        final(out)@ == old(out)@ + be32(x),
{
    let mut i: u32 = 0;
    while i < 4
        invariant
            i <= 4,
            out@.len() == old(out)@.len() + i,
            forall|j: int| 0 <= j < old(out)@.len() ==> out@[j] == old(out)@[j],
            forall|j: int|
                0 <= j < i ==> out@[old(out)@.len() + j] == be32_byte(x, j),
        decreases 4 - i,
    {
        out.push(((x >> ((3 - i) * 8)) & 0xff) as u8);
        i = i + 1;
    }
    assert(out@ =~= old(out)@ + be32(x));
}

/// Appends every byte of `bytes`.
pub fn push_bytes(out: &mut Vec<u8>, bytes: &[u8])
    ensures
        final(out)@ == old(out)@ + bytes@,
{
    let mut i: usize = 0;
    while i < bytes.len()
        invariant
            i <= bytes@.len(),
            out@ == old(out)@ + bytes@.subrange(0, i as int),
        decreases bytes@.len() - i,
    {
        out.push(bytes[i]);
        i = i + 1;
        assert(out@ =~= old(out)@ + bytes@.subrange(0, i as int));
    }
    assert(bytes@.subrange(0, bytes@.len() as int) =~= bytes@);
}


/// Value of eight big-endian bytes.
pub open spec fn be64_value(s: Seq<u8>) -> int {
    s[0] * 0x100000000000000 + s[1] * 0x1000000000000 + s[2] * 0x10000000000 + s[3] * 0x100000000
        + s[4] * 0x1000000 + s[5] * 0x10000 + s[6] * 0x100 + s[7]
}

/// Value of four big-endian bytes.
pub open spec fn be32_value(s: Seq<u8>) -> int {
    s[0] * 0x1000000 + s[1] * 0x10000 + s[2] * 0x100 + s[3]
}

/// Reading back eight big-endian bytes gives the encoded value.
pub proof fn lemma_be64_round_trip(x: u64)
    ensures
        be64_value(be64(x)) == x,
{
    let s = be64(x);
    let b0 = ((x >> 56u64) & 0xff) as u8;
    let b1 = ((x >> 48u64) & 0xff) as u8;
    let b2 = ((x >> 40u64) & 0xff) as u8;
    let b3 = ((x >> 32u64) & 0xff) as u8;
    let b4 = ((x >> 24u64) & 0xff) as u8;
    let b5 = ((x >> 16u64) & 0xff) as u8;
    let b6 = ((x >> 8u64) & 0xff) as u8;
    let b7 = ((x >> 0u64) & 0xff) as u8;
    assert(s[0] == b0 && s[1] == b1 && s[2] == b2 && s[3] == b3);
    assert(s[4] == b4 && s[5] == b5 && s[6] == b6 && s[7] == b7);
    assert(b0 * 0x100000000000000 + b1 * 0x1000000000000 + b2 * 0x10000000000 + b3 * 0x100000000
        + b4 * 0x1000000 + b5 * 0x10000 + b6 * 0x100 + b7 == x) by (bit_vector)
        requires
            b0 == ((x >> 56u64) & 0xff) as u8,
            b1 == ((x >> 48u64) & 0xff) as u8,
            b2 == ((x >> 40u64) & 0xff) as u8,
            b3 == ((x >> 32u64) & 0xff) as u8,
            b4 == ((x >> 24u64) & 0xff) as u8,
            b5 == ((x >> 16u64) & 0xff) as u8,
            b6 == ((x >> 8u64) & 0xff) as u8,
            b7 == ((x >> 0u64) & 0xff) as u8,
    ;
}

/// Reading back four big-endian bytes gives the encoded value.
pub proof fn lemma_be32_round_trip(x: u32)
    ensures
        be32_value(be32(x)) == x,
{
    let s = be32(x);
    let b0 = ((x >> 24u32) & 0xff) as u8;
    let b1 = ((x >> 16u32) & 0xff) as u8;
    let b2 = ((x >> 8u32) & 0xff) as u8;
    let b3 = ((x >> 0u32) & 0xff) as u8;
    assert(s[0] == b0 && s[1] == b1 && s[2] == b2 && s[3] == b3);
    assert(b0 * 0x1000000 + b1 * 0x10000 + b2 * 0x100 + b3 == x) by (bit_vector)
        requires
            b0 == ((x >> 24u32) & 0xff) as u8,
            b1 == ((x >> 16u32) & 0xff) as u8,
            b2 == ((x >> 8u32) & 0xff) as u8,
            b3 == ((x >> 0u32) & 0xff) as u8,
    ;
}

/// Big-endian `u64` at `at`.
pub fn read_be64(b: &Vec<u8>, at: usize) -> (r: u64)
    requires
        at + 8 <= b@.len(),
    ensures
        r == be64_value(b@.subrange(at as int, at + 8)),
{
    let _n = b.len();
    let s = Ghost(b@.subrange(at as int, at + 8));
    assert(s@[0] == b@[at as int] && s@[1] == b@[at + 1] && s@[2] == b@[at + 2] && s@[3] == b@[at + 3]);
    assert(s@[4] == b@[at + 4] && s@[5] == b@[at + 5] && s@[6] == b@[at + 6] && s@[7] == b@[at + 7]);
    let x0 = b[at] as u64;
    let x1 = b[at + 1] as u64;
    let x2 = b[at + 2] as u64;
    let x3 = b[at + 3] as u64;
    let x4 = b[at + 4] as u64;
    let x5 = b[at + 5] as u64;
    let x6 = b[at + 6] as u64;
    let x7 = b[at + 7] as u64;
    assert(x0 * 0x100000000000000 + x1 * 0x1000000000000 + x2 * 0x10000000000 + x3 * 0x100000000
        + x4 * 0x1000000 + x5 * 0x10000 + x6 * 0x100 + x7 <= u64::MAX) by (nonlinear_arith)
        requires
            x0 <= 255 && x1 <= 255 && x2 <= 255 && x3 <= 255 && x4 <= 255 && x5 <= 255 && x6 <= 255 && x7 <= 255,
    ;
    assert(x0 * 0x100000000000000 <= 0xff00000000000000) by (nonlinear_arith) requires x0 <= 255;
    assert(x1 * 0x1000000000000 <= 0xff000000000000) by (nonlinear_arith) requires x1 <= 255;
    assert(x2 * 0x10000000000 <= 0xff0000000000) by (nonlinear_arith) requires x2 <= 255;
    assert(x3 * 0x100000000 <= 0xff00000000) by (nonlinear_arith) requires x3 <= 255;
    assert(x4 * 0x1000000 <= 0xff000000) by (nonlinear_arith) requires x4 <= 255;
    assert(x5 * 0x10000 <= 0xff0000) by (nonlinear_arith) requires x5 <= 255;
    assert(x6 * 0x100 <= 0xff00) by (nonlinear_arith) requires x6 <= 255;
    x0 * 0x100000000000000 + x1 * 0x1000000000000 + x2 * 0x10000000000 + x3 * 0x100000000
        + x4 * 0x1000000 + x5 * 0x10000 + x6 * 0x100 + x7
}

/// Big-endian `u32` at `at`.
pub fn read_be32(b: &Vec<u8>, at: usize) -> (r: u32)
    requires
        at + 4 <= b@.len(),
    ensures
        r == be32_value(b@.subrange(at as int, at + 4)),
{
    let _n = b.len();
    let s = Ghost(b@.subrange(at as int, at + 4));
    assert(s@[0] == b@[at as int] && s@[1] == b@[at + 1] && s@[2] == b@[at + 2] && s@[3] == b@[at + 3]);
    let x0 = b[at] as u32;
    let x1 = b[at + 1] as u32;
    let x2 = b[at + 2] as u32;
    let x3 = b[at + 3] as u32;
    assert(x0 * 0x1000000 <= 0xff000000) by (nonlinear_arith) requires x0 <= 255;
    assert(x1 * 0x10000 <= 0xff0000) by (nonlinear_arith) requires x1 <= 255;
    assert(x2 * 0x100 <= 0xff00) by (nonlinear_arith) requires x2 <= 255;
    x0 * 0x1000000 + x1 * 0x10000 + x2 * 0x100 + x3
}

} // verus!
