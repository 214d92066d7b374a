//! Version accessors: the compile-time version of each linked native
//! component (format, codec, utility), rendered as `major.minor.micro`.

use crate::text::{
    dec_chars, dec_string, digit_char, lemma_encode_ascii, lemma_encode_utf8_concat,
    lemma_encode_utf8_singleton, push_decimal, utf8_to_string,
};
use vstd::prelude::*;
use vstd::utf8::{encode_utf8, encode_utf8_decode_utf8, encode_utf8_valid_utf8};

verus! {

pub const LIBAVFORMAT_VERSION_MAJOR: u32 = 60;

pub const LIBAVFORMAT_VERSION_MINOR: u32 = 3;

pub const LIBAVFORMAT_VERSION_MICRO: u32 = 100;

pub const LIBAVCODEC_VERSION_MAJOR: u32 = 60;

pub const LIBAVCODEC_VERSION_MINOR: u32 = 3;

pub const LIBAVCODEC_VERSION_MICRO: u32 = 100;

pub const LIBAVUTIL_VERSION_MAJOR: u32 = 58;

pub const LIBAVUTIL_VERSION_MINOR: u32 = 2;

pub const LIBAVUTIL_VERSION_MICRO: u32 = 100;

/// The dotted rendering of a three-part version number.
pub open spec fn version_chars(major: u32, minor: u32, micro: u32) -> Seq<char> {
    dec_chars(major as nat) + seq!['.'] + dec_chars(minor as nat) + seq!['.'] + dec_chars(
        micro as nat,
    )
}

fn format_version(major: u32, minor: u32, micro: u32) -> (s: String)
    ensures
        s@ == version_chars(major, minor, micro),
{
    let mut v: Vec<u8> = Vec::new();
    push_decimal(&mut v, major as u64);
    v.push(0x2e);
    push_decimal(&mut v, minor as u64);
    v.push(0x2e);
    push_decimal(&mut v, micro as u64);
    let ghost cs = version_chars(major, minor, micro);
    proof {
        assert('.' as u32 == 0x2e);
        lemma_encode_ascii(0x2e);
        lemma_encode_utf8_singleton('.');
        let a = dec_chars(major as nat);
        let b = dec_chars(minor as nat);
        let c = dec_chars(micro as nat);
        lemma_encode_utf8_concat(a, seq!['.']);
        lemma_encode_utf8_concat(a + seq!['.'], b);
        lemma_encode_utf8_concat(a + seq!['.'] + b, seq!['.']);
        lemma_encode_utf8_concat(a + seq!['.'] + b + seq!['.'], c);
        assert(v@ =~= encode_utf8(cs));
        encode_utf8_valid_utf8(cs);
        encode_utf8_decode_utf8(cs);
    }
    match utf8_to_string(&v) {
        Some(s) => s,
        None => vstd::pervasive::unreached(),
    }
}

/// Version of the linked container-format component.
pub fn libavformat_version() -> (s: String)
    ensures
        s@ == version_chars(
            LIBAVFORMAT_VERSION_MAJOR,
            LIBAVFORMAT_VERSION_MINOR,
            LIBAVFORMAT_VERSION_MICRO,
        ),
{
    format_version(
        LIBAVFORMAT_VERSION_MAJOR,
        LIBAVFORMAT_VERSION_MINOR,
        LIBAVFORMAT_VERSION_MICRO,
    )
}

/// Version of the linked codec component.
pub fn libavcodec_version() -> (s: String)
    ensures
        s@ == version_chars(
            LIBAVCODEC_VERSION_MAJOR,
            LIBAVCODEC_VERSION_MINOR,
            LIBAVCODEC_VERSION_MICRO,
        ),
{
    format_version(
        LIBAVCODEC_VERSION_MAJOR,
        LIBAVCODEC_VERSION_MINOR,
        LIBAVCODEC_VERSION_MICRO,
    )
}

/// Version of the linked utility component.
pub fn libavutil_version() -> (s: String)
    ensures
        s@ == version_chars(
            LIBAVUTIL_VERSION_MAJOR,
            LIBAVUTIL_VERSION_MINOR,
            LIBAVUTIL_VERSION_MICRO,
        ),
{
    format_version(
        LIBAVUTIL_VERSION_MAJOR,
        LIBAVUTIL_VERSION_MINOR,
        LIBAVUTIL_VERSION_MICRO,
    )
}

/// True when every character of `s` is a decimal digit.
pub open spec fn all_digit_chars(s: Seq<char>) -> bool {
    forall|i: int| 0 <= i < s.len() ==> 0x30 <= (#[trigger] s[i]) as u32 <= 0x39
}

/// A decimal rendering is never empty and consists of digits alone.
pub proof fn lemma_dec_chars_digits(n: nat)
    ensures
        dec_chars(n).len() > 0,
        all_digit_chars(dec_chars(n)),
    decreases n,
{
    assert(digit_char(n % 10) as u32 == 0x30 + (n % 10));
    if n >= 10 {
        lemma_dec_chars_digits(n / 10);
    }
}

/// Every version string has the shape `<digits>.<digits>.<digits>`: three
/// non-empty runs of decimal digits separated by single dots. Together with
/// the version accessors' contracts, which pin each result to
/// `version_chars` of fixed constants, this also makes repeated calls yield
/// equal strings.
pub proof fn lemma_version_chars_shape(major: u32, minor: u32, micro: u32)
    ensures
        version_chars(major, minor, micro) == dec_chars(major as nat) + seq!['.'] + dec_chars(
            minor as nat,
        ) + seq!['.'] + dec_chars(micro as nat),
        dec_chars(major as nat).len() > 0 && all_digit_chars(dec_chars(major as nat)),
        dec_chars(minor as nat).len() > 0 && all_digit_chars(dec_chars(minor as nat)),
        dec_chars(micro as nat).len() > 0 && all_digit_chars(dec_chars(micro as nat)),
        '.' as u32 == 0x2e,
{
    lemma_dec_chars_digits(major as nat);
    lemma_dec_chars_digits(minor as nat);
    lemma_dec_chars_digits(micro as nat);
}

} // verus!
