//! Hex text handling for hash-like external values and proof transport.
//!
//! The executable encoding and decoding are delegated to the `hex` crate;
//! their behaviour is stated exactly over the spec functions below, so every
//! caller's contract is proved against the denotation of hex text.

use vstd::prelude::*;

verus! {

/// The lowercase hex digit of a value below sixteen.
pub open spec fn hex_digit_char(d: u8) -> char
    recommends
        d < 16,
{
    if d == 0 { '0' } else if d == 1 { '1' } else if d == 2 { '2' } else if d == 3 { '3' }
    else if d == 4 { '4' } else if d == 5 { '5' } else if d == 6 { '6' } else if d == 7 { '7' }
    else if d == 8 { '8' } else if d == 9 { '9' } else if d == 10 { 'a' } else if d == 11 { 'b' }
    else if d == 12 { 'c' } else if d == 13 { 'd' } else if d == 14 { 'e' } else { 'f' }
}

/// Whether a character is a hex digit, in either letter case.
pub open spec fn is_hex_char(c: char) -> bool {
    ||| '0' as int <= c as int <= '9' as int
    ||| 'a' as int <= c as int <= 'f' as int
    ||| 'A' as int <= c as int <= 'F' as int
}

/// The value of a hex digit character; zero on other characters.
pub open spec fn hex_char_val(c: char) -> u8
    recommends
        is_hex_char(c),
{
    if '0' as int <= c as int <= '9' as int {
        (c as int - '0' as int) as u8
    } else if 'a' as int <= c as int <= 'f' as int {
        (c as int - 'a' as int + 10) as u8
    } else if 'A' as int <= c as int <= 'F' as int {
        (c as int - 'A' as int + 10) as u8
    } else {
        0
    }
}

/// The lowercase hex text of a byte string.
pub open spec fn hex_of(b: Seq<u8>) -> Seq<char> {
    Seq::new(b.len() * 2, |i: int|
        if i % 2 == 0 {
            hex_digit_char((b[i / 2] / 16) as u8)
        } else {
            hex_digit_char((b[i / 2] % 16) as u8)
        })
}

/// Whether text is well-formed hex: even length, hex digits throughout.
pub open spec fn valid_hex(s: Seq<char>) -> bool {
    s.len() % 2 == 0 && (forall|i: int| 0 <= i < s.len() ==> is_hex_char(s[i]))
}

/// The bytes denoted by well-formed hex text.
pub open spec fn bytes_of_hex(s: Seq<char>) -> Seq<u8>
    recommends
        valid_hex(s),
{
    Seq::new(s.len() / 2, |i: int| (hex_char_val(s[2 * i]) * 16 + hex_char_val(s[2 * i + 1])) as u8)
}

/// Relies on hex::encode: two lowercase digits per input byte.
#[verifier::external_body]
pub(crate) fn hex_encode(bytes: &Vec<u8>) -> (r: String)
    ensures
        r@ == hex_of(bytes@),
{
    hex::encode(bytes)
}

/// Relies on hex::decode: succeeds exactly on even-length text of hex digits
/// in either letter case, and returns the denoted bytes.
#[verifier::external_body]
pub(crate) fn hex_decode(s: &str) -> (r: Option<Vec<u8>>)
    ensures
        r is Some <==> valid_hex(s@),
        r is Some ==> r.unwrap()@ == bytes_of_hex(s@),
{
    hex::decode(s).ok()
}

/// Encoding a byte string as hex text always yields well-formed hex, and
/// decoding it gives the bytes back.
pub proof fn lemma_hex_round_trip(b: Seq<u8>)
    ensures
        valid_hex(hex_of(b)),
        bytes_of_hex(hex_of(b)) == b,
{
    let s = hex_of(b);
    assert forall|i: int| 0 <= i < s.len() implies is_hex_char(s[i]) by {
        if i % 2 == 0 {
            assert(b[i / 2] / 16 < 16);
        } else {
            assert(b[i / 2] % 16 < 16);
        }
    }
    assert forall|i: int| 0 <= i < b.len() implies bytes_of_hex(s)[i] == b[i] by {
        assert(s[2 * i] == hex_digit_char((b[i] / 16) as u8));
        assert(s[2 * i + 1] == hex_digit_char((b[i] % 16) as u8));
        assert(hex_char_val(hex_digit_char((b[i] / 16) as u8)) == b[i] / 16);
        assert(hex_char_val(hex_digit_char((b[i] % 16) as u8)) == b[i] % 16);
    }
    assert(bytes_of_hex(s) =~= b);
}

} // verus!
