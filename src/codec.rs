//! Byte-level reading and writing shared by the instruction and record codecs.
use vstd::prelude::*;
use vstd::bytes::{spec_u64_from_le_bytes, spec_u64_to_le_bytes, u64_from_le_bytes, u64_to_le_bytes};
use vstd::slice::slice_subrange;
use vstd::utf8::{decode_utf8, encode_utf8, valid_utf8};
use std::borrow::ToOwned;

verus! {

broadcast use vstd::slice::group_slice_axioms;

/// Width in bytes of a key field and of a name field.
pub const KEY_LEN: usize = 32;

/// Width in bytes of an integer or amount field.
pub const WORD_LEN: usize = 8;

/// What `String::from_utf8_lossy` makes of the given bytes.
pub uninterp spec fn utf8_lossy(b: Seq<u8>) -> Seq<char>;

/// The bytes a name is written as: its UTF-8 encoding, with no length prefix.
pub open spec fn name_bytes(s: String) -> Seq<u8> {
    encode_utf8(s@)
}

/// A name fits its field when its UTF-8 encoding is exactly one field wide.
pub open spec fn name_fits(s: String) -> bool {
    name_bytes(s).len() == KEY_LEN
}

/// The text `String::from_utf8_lossy` makes of `field`: the decoded text
/// where `field` is valid UTF-8.
pub open spec fn name_of(field: Seq<u8>) -> Seq<char> {
    if valid_utf8(field) {
        decode_utf8(field)
    } else {
        utf8_lossy(field)
    }
}

/// Little-endian bytes of a 64-bit word.
pub open spec fn word_bytes(x: u64) -> Seq<u8> {
    spec_u64_to_le_bytes(x)
}

/// The 64-bit word stored little-endian at `at`.
pub open spec fn word_at(data: Seq<u8>, at: int) -> u64 {
    spec_u64_from_le_bytes(data.subrange(at, at + 8))
}

/// The byte a flag is written as.
pub open spec fn flag_byte(b: bool) -> u8 {
    if b {
        1u8
    } else {
        0u8
    }
}

/// Relies on `String::from_utf8_lossy`: the result depends on the bytes
/// alone, and bytes that are valid UTF-8 come back as the text they encode.
#[verifier::external_body]
fn text_from_utf8_lossy(b: &[u8]) -> (r: String)
    ensures
        !valid_utf8(b@) ==> r@ == utf8_lossy(b@),
        valid_utf8(b@) ==> r@ == decode_utf8(b@),
{
    String::from_utf8_lossy(b).into_owned()
}

/// Decoding the encoding of a text gives the text back.
pub proof fn lemma_name_round_trip(chars: Seq<char>)
    ensures
        name_of(encode_utf8(chars)) == chars,
{
    vstd::utf8::encode_utf8_valid_utf8(chars);
    vstd::utf8::encode_utf8_decode_utf8(chars);
}

/// The name of 32 NUL characters, which a zero-filled field holds.
pub open spec fn zero_name() -> Seq<char> {
    Seq::new(32, |i: int| '\0')
}

/// A zero-filled field holds 32 NUL characters, and they are written back as
/// 32 zero bytes.
pub proof fn lemma_zero_name()
    ensures
        encode_utf8(zero_name()) == Seq::new(32, |i: int| 0u8),
        name_of(Seq::new(32, |i: int| 0u8)) == zero_name(),
{
    assert(vstd::utf8::is_ascii_chars(zero_name()));
    vstd::utf8::is_ascii_chars_encode_utf8(zero_name());
    assert(encode_utf8(zero_name()) =~= Seq::new(32, |i: int| 0u8));
    lemma_name_round_trip(zero_name());
}

/// A name of 32 NUL characters.
pub fn zero_filled_name() -> (r: String)
    ensures
        r@ == zero_name(),
{
    let lit = "\0\0\0\0\0\0\0\0\0\0\0\0\0\0\0\0\0\0\0\0\0\0\0\0\0\0\0\0\0\0\0\0";
    proof {
        reveal_strlit("\0\0\0\0\0\0\0\0\0\0\0\0\0\0\0\0\0\0\0\0\0\0\0\0\0\0\0\0\0\0\0\0");
    }
    let r = lit.to_owned();
    assert(r@ =~= zero_name());
    r
}

/// Words and their little-endian bytes determine each other.
pub proof fn lemma_word_round_trip(x: u64)
    ensures
        word_bytes(x).len() == 8,
        spec_u64_from_le_bytes(word_bytes(x)) == x,
{
    vstd::bytes::lemma_auto_spec_u64_to_from_le_bytes();
}

/// The word whose bytes stand at `p[at..at + 8]` reads back as that word.
pub proof fn lemma_word_at(p: Seq<u8>, at: int, x: u64)
    requires
        0 <= at,
        at + 8 <= p.len(),
        p.subrange(at, at + 8) == word_bytes(x),
    ensures
        word_at(p, at) == x,
{
    lemma_word_round_trip(x);
}

/// Appends `bytes` to the end of `buf`.
pub fn append(buf: &mut Vec<u8>, bytes: &[u8])
    ensures
        final(buf)@ == old(buf)@ + bytes@,
{
    let n: usize = bytes.len();
    let mut i: usize = 0;
    while i < n
        invariant
            n == bytes@.len(),
            i <= n,
            buf@ == old(buf)@ + bytes@.subrange(0, i as int),
        decreases n - i,
    {
        buf.push(bytes[i]);
        i = i + 1;
        assert(bytes@.subrange(0, i as int) =~= bytes@.subrange(0, i - 1) + seq![bytes@[i - 1]]);
    }
    assert(bytes@.subrange(0, n as int) =~= bytes@);
}

/// Appends the little-endian bytes of `x`.
pub fn write_word(buf: &mut Vec<u8>, x: u64)
    ensures
        final(buf)@ == old(buf)@ + word_bytes(x),
{
    let b = u64_to_le_bytes(x);
    append(buf, b.as_slice());
}

/// Appends the UTF-8 bytes of `s`.
pub fn write_name(buf: &mut Vec<u8>, s: &String)
    ensures
        final(buf)@ == old(buf)@ + name_bytes(*s),
{
    append(buf, s.as_str().as_bytes());
}

/// Appends a flag as one byte, 1 for true and 0 for false.
pub fn write_flag(buf: &mut Vec<u8>, b: bool)
    ensures
        final(buf)@ == old(buf)@.push(flag_byte(b)),
{
    buf.push(if b { 1u8 } else { 0u8 });
}

/// Reads the little-endian word at `input[at..at + 8]`.
pub fn read_word(input: &[u8], at: usize) -> (r: u64)
    requires
        at + 8 <= input@.len(),
    ensures
        r == word_at(input@, at as int),
{
    proof {
        assert(input.len() == input@.len());
    }
    let field = slice_subrange(input, at, at + WORD_LEN);
    u64_from_le_bytes(field)
}

/// Reads the name stored in `input[at..at + 32]`, replacing invalid UTF-8.
pub fn read_name(input: &[u8], at: usize) -> (r: String)
    requires
        at + 32 <= input@.len(),
    ensures
        r@ == name_of(input@.subrange(at as int, at + 32)),
{
    proof {
        assert(input.len() == input@.len());
    }
    let field = slice_subrange(input, at, at + KEY_LEN);
    text_from_utf8_lossy(field)
}

} // verus!
