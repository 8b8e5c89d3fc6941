//! Text encodings used when building requests: percent-encoding (from
//! `urlencoding`) and standard base64 (from `base64`).

use vstd::prelude::*;
use vstd::utf8::encode_utf8;

verus! {

/// Bytes that percent-encoding leaves as they are: ASCII letters, digits and
/// `-`, `.`, `_`, `~`.
pub open spec fn is_unreserved(b: u8) -> bool {
    ||| 48 <= b <= 57
    ||| 65 <= b <= 90
    ||| 97 <= b <= 122
    ||| b == 45
    ||| b == 46
    ||| b == 95
    ||| b == 126
}

/// The upper-case hexadecimal digit for a value below 16.
pub open spec fn hex_digit_upper(n: u8) -> char {
    if n < 10 {
        ((n + 48) as u8) as char
    } else {
        ((n + 55) as u8) as char
    }
}

/// Percent-encoding of a byte sequence: unreserved bytes stand for
/// themselves, every other byte becomes `%` and two upper-case hex digits.
pub open spec fn percent_encoded(bytes: Seq<u8>) -> Seq<char>
    decreases bytes.len(),
{
    if bytes.len() == 0 {
        seq![]
    } else {
        let b = bytes[0];
        let head = if is_unreserved(b) {
            seq![b as char]
        } else {
            seq!['%', hex_digit_upper(b >> 4), hex_digit_upper(b & 15)]
        };
        head + percent_encoded(bytes.drop_first())
    }
}

/// Percent-encodes the UTF-8 bytes of `s` (`urlencoding::encode`).
#[verifier::external_body]
pub(crate) fn url_encode(s: &str) -> (r: String)
    ensures
        r@ == percent_encoded(encode_utf8(s@)),
{
    urlencoding::encode(s).into_owned()
}

/// The character of the standard base64 alphabet for a value below 64.
pub open spec fn base64_char(n: u8) -> char {
    if n < 26 {
        ((n + 65) as u8) as char
    } else if n < 52 {
        ((n + 71) as u8) as char
    } else if n < 62 {
        ((n - 4) as u8) as char
    } else if n == 62 {
        '+'
    } else {
        '/'
    }
}

/// Standard base64 (RFC 4648 alphabet, `=` padding) of a byte sequence.
pub open spec fn base64_standard(bytes: Seq<u8>) -> Seq<char>
    decreases bytes.len(),
{
    if bytes.len() == 0 {
        seq![]
    } else if bytes.len() == 1 {
        let b0 = bytes[0];
        seq![base64_char(b0 >> 2), base64_char(((b0 & 3) << 4) as u8), '=', '=']
    } else if bytes.len() == 2 {
        let b0 = bytes[0];
        let b1 = bytes[1];
        seq![
            base64_char(b0 >> 2),
            base64_char((((b0 & 3) << 4) | (b1 >> 4)) as u8),
            base64_char(((b1 & 15) << 2) as u8),
            '=',
        ]
    } else {
        let b0 = bytes[0];
        let b1 = bytes[1];
        let b2 = bytes[2];
        seq![
            base64_char(b0 >> 2),
            base64_char((((b0 & 3) << 4) | (b1 >> 4)) as u8),
            base64_char((((b1 & 15) << 2) | (b2 >> 6)) as u8),
            base64_char(b2 & 63),
        ] + base64_standard(bytes.skip(3))
    }
}

/// Standard base64 of the UTF-8 bytes of `s`
/// (`base64::Engine::encode` with `base64::engine::general_purpose::STANDARD`).
#[verifier::external_body]
pub(crate) fn base64_encode(s: &str) -> (r: String)
    ensures
        r@ == base64_standard(encode_utf8(s@)),
{
    base64::Engine::encode(&base64::engine::general_purpose::STANDARD, s)
}

} // verus!
