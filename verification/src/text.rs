//! Text building for the probe results: decimal renderings of native numeric
//! codes and the four-character codec tag, all constructed as UTF-8 bytes and
//! turned into owned strings through a single checked conversion.

use vstd::prelude::*;
use vstd::utf8::{
    decode_utf8, encode_scalar, encode_utf8, encode_utf8_decode_utf8, encode_utf8_valid_utf8,
    has_width_1_encoding, has_width_2_encoding, leading_byte_width_1, leading_byte_width_2,
    last_continuation_byte, valid_utf8,
};

verus! {

/// Relies on std's String::from_utf8: it returns Ok exactly when the bytes are
/// a valid UTF-8 encoding, and the characters of the resulting string are the
/// decoding of those bytes.
#[verifier::external_body]
pub(crate) fn utf8_to_string(v: &Vec<u8>) -> (r: Option<String>)
    ensures
        r is Some <==> valid_utf8(v@),
        r matches Some(s) ==> s@ == decode_utf8(v@),
{
    String::from_utf8(v.clone()).ok()
}

/// The decimal digit character for `d % 10`.
pub open spec fn digit_char(d: nat) -> char {
    ((0x30 + (d % 10)) as u8) as char
}

/// The decimal rendering of `n`, most significant digit first, no sign and no
/// leading zeros (a single `'0'` for zero).
pub open spec fn dec_chars(n: nat) -> Seq<char>
    decreases n,
{
    if n < 10 {
        seq![digit_char(n)]
    } else {
        dec_chars(n / 10).push(digit_char(n % 10))
    }
}

/// The decimal rendering of a signed number: a leading `'-'` when negative.
pub open spec fn int_chars(n: int) -> Seq<char> {
    if n < 0 {
        seq!['-'] + dec_chars((-n) as nat)
    } else {
        dec_chars(n as nat)
    }
}

pub proof fn lemma_encode_utf8_singleton(c: char)
    ensures
        encode_utf8(seq![c]) == encode_scalar(c as u32),
{
    assert(seq![c].drop_first() =~= Seq::<char>::empty());
    assert(encode_utf8(Seq::<char>::empty()) =~= Seq::<u8>::empty());
    assert(seq![c][0] == c);
    assert(encode_utf8(seq![c]) =~= encode_scalar(c as u32));
}

pub proof fn lemma_encode_utf8_concat(a: Seq<char>, b: Seq<char>)
    ensures
        encode_utf8(a + b) == encode_utf8(a) + encode_utf8(b),
    decreases a.len(),
{
    if a.len() == 0 {
        assert(a + b =~= b);
        assert(encode_utf8(a + b) =~= encode_utf8(a) + encode_utf8(b));
    } else {
        assert((a + b).drop_first() =~= a.drop_first() + b);
        lemma_encode_utf8_concat(a.drop_first(), b);
        assert(encode_utf8(a + b) =~= encode_utf8(a) + encode_utf8(b));
    }
}

/// A byte below 0x80 is a Unicode scalar that encodes as itself.
pub proof fn lemma_encode_ascii(b: u8)
    requires
        b < 0x80,
    ensures
        encode_scalar(b as u32) == seq![b],
{
    assert(has_width_1_encoding(b as u32));
    assert(leading_byte_width_1(b as u32) == b) by (bit_vector)
        requires b < 0x80;
}

/// Appends the UTF-8 encoding (here: the ASCII bytes) of the decimal rendering
/// of `n` to `v`.
pub(crate) fn push_decimal(v: &mut Vec<u8>, n: u64)
    ensures
        final(v)@ == old(v)@ + encode_utf8(dec_chars(n as nat)),
    decreases n,
{
    if n >= 10 {
        push_decimal(v, n / 10);
    }
    let d: u8 = (n % 10) as u8;
    v.push(0x30 + d);
    proof {
        let m = (n % 10) as nat;
        let c = digit_char(m);
        assert(c as u32 == 0x30 + m);
        lemma_encode_ascii((0x30 + m) as u8);
        lemma_encode_utf8_singleton(c);
        if n < 10 {
            assert(v@ =~= old(v)@ + encode_utf8(dec_chars(n as nat)));
        } else {
            assert(dec_chars(n as nat) =~= dec_chars((n as nat) / 10) + seq![c]);
            lemma_encode_utf8_concat(dec_chars((n as nat) / 10), seq![c]);
            assert(v@ =~= old(v)@ + encode_utf8(dec_chars(n as nat)));
        }
    }
}

/// The four characters of a packed 32-bit codec tag: byte `k` of the code
/// (little-endian, least significant first) becomes character `k`, each byte
/// read as the character with that code point.
pub open spec fn fourcc_chars(tag: u32) -> Seq<char> {
    seq![
        ((tag & 0xff) as u8) as char,
        (((tag >> 8) & 0xff) as u8) as char,
        (((tag >> 16) & 0xff) as u8) as char,
        (((tag >> 24) & 0xff) as u8) as char,
    ]
}

/// Appends the UTF-8 encoding of the character whose code point is `b`: the
/// byte itself below 0x80, a two-byte sequence above.
fn push_byte_char(v: &mut Vec<u8>, b: u8)
    ensures
        final(v)@ == old(v)@ + encode_scalar(b as u32),
{
    if b < 0x80 {
        v.push(b);
        proof {
            lemma_encode_ascii(b);
            assert(v@ =~= old(v)@ + encode_scalar(b as u32));
        }
    } else {
        v.push(0xc0 | (b >> 6));
        v.push(0x80 | (b & 0x3f));
        proof {
            assert(has_width_2_encoding(b as u32)) by (bit_vector)
                requires b >= 0x80;
            assert(leading_byte_width_2(b as u32) == (0xc0 | (b >> 6))) by (bit_vector)
                requires b >= 0x80;
            assert(last_continuation_byte(b as u32) == (0x80 | (b & 0x3f))) by (bit_vector);
            assert(v@ =~= old(v)@ + encode_scalar(b as u32));
        }
    }
}

/// Decodes a packed 32-bit codec tag into its four-character name, in
/// little-endian byte order; bytes outside the printable range still become
/// the characters with those code points.
pub fn decode_codec_tag(tag: u32) -> (s: String)
    ensures
        s@ == fourcc_chars(tag),
        s@.len() == 4,
{
    proof {
        assert(tag & 0xff < 0x100 && (tag >> 8) & 0xff < 0x100 && (tag >> 16) & 0xff < 0x100
            && (tag >> 24) & 0xff < 0x100) by (bit_vector);
    }
    let b0: u8 = (tag & 0xff) as u8;
    let b1: u8 = ((tag >> 8) & 0xff) as u8;
    let b2: u8 = ((tag >> 16) & 0xff) as u8;
    let b3: u8 = ((tag >> 24) & 0xff) as u8;
    let mut v: Vec<u8> = Vec::new();
    push_byte_char(&mut v, b0);
    push_byte_char(&mut v, b1);
    push_byte_char(&mut v, b2);
    push_byte_char(&mut v, b3);
    let ghost cs = fourcc_chars(tag);
    proof {
        lemma_encode_utf8_singleton(cs[0]);
        lemma_encode_utf8_singleton(cs[1]);
        lemma_encode_utf8_singleton(cs[2]);
        lemma_encode_utf8_singleton(cs[3]);
        assert(cs =~= seq![cs[0]] + seq![cs[1]] + seq![cs[2]] + seq![cs[3]]);
        lemma_encode_utf8_concat(seq![cs[0]], seq![cs[1]]);
        lemma_encode_utf8_concat(seq![cs[0]] + seq![cs[1]], seq![cs[2]]);
        lemma_encode_utf8_concat(seq![cs[0]] + seq![cs[1]] + seq![cs[2]], seq![cs[3]]);
        assert(v@ =~= encode_utf8(cs));
        encode_utf8_valid_utf8(cs);
        encode_utf8_decode_utf8(cs);
    }
    match utf8_to_string(&v) {
        Some(s) => s,
        None => vstd::pervasive::unreached(),
    }
}

/// The decimal rendering of `n` as an owned string, with a leading `'-'` when
/// negative.
pub fn int_string(n: i32) -> (s: String)
    ensures
        s@ == int_chars(n as int),
{
    if n < 0 {
        let m: u64 = (-(n as i64)) as u64;
        let mut v: Vec<u8> = Vec::new();
        v.push(0x2d);
        push_decimal(&mut v, m);
        proof {
            assert('-' as u32 == 0x2d);
            lemma_encode_ascii(0x2d);
            lemma_encode_utf8_singleton('-');
            lemma_encode_utf8_concat(seq!['-'], dec_chars(m as nat));
            assert(int_chars(n as int) =~= seq!['-'] + dec_chars(m as nat));
            assert(v@ =~= encode_utf8(int_chars(n as int)));
            encode_utf8_valid_utf8(int_chars(n as int));
            encode_utf8_decode_utf8(int_chars(n as int));
        }
        match utf8_to_string(&v) {
            Some(s) => s,
            None => vstd::pervasive::unreached(),
        }
    } else {
        dec_string(n as u64)
    }
}

/// The decimal rendering of `n` as an owned string.
pub fn dec_string(n: u64) -> (s: String)
    ensures
        s@ == dec_chars(n as nat),
{
    let mut v: Vec<u8> = Vec::new();
    push_decimal(&mut v, n);
    proof {
        encode_utf8_valid_utf8(dec_chars(n as nat));
        encode_utf8_decode_utf8(dec_chars(n as nat));
        assert(v@ =~= encode_utf8(dec_chars(n as nat)));
    }
    match utf8_to_string(&v) {
        Some(s) => s,
        None => vstd::pervasive::unreached(),
    }
}

} // verus!
