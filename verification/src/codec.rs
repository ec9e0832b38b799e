//! The byte/text interop layer: metadata crosses the wire as hexadecimal
//! text. The mathematical meaning of hex text is pinned down by spec
//! functions here; the executable encoding and decoding are done by the hex
//! crate behind trusted wrappers whose contracts state exactly that meaning.

use vstd::prelude::*;

verus! {

/// Whether a character is a hexadecimal digit, in either case.
pub open spec fn is_hex_digit(c: char) -> bool {
    ('0' <= c && c <= '9') || ('a' <= c && c <= 'f') || ('A' <= c && c <= 'F')
}

/// The numeric value of a hexadecimal digit.
pub open spec fn hex_digit_value(c: char) -> int {
    if '0' <= c && c <= '9' {
        c as int - '0' as int
    } else if 'a' <= c && c <= 'f' {
        10 + c as int - 'a' as int
    } else {
        10 + c as int - 'A' as int
    }
}

/// The lowercase digit character for a value below sixteen.
pub open spec fn lower_hex_digit(d: int) -> char {
    if d == 0 {
        '0'
    } else if d == 1 {
        '1'
    } else if d == 2 {
        '2'
    } else if d == 3 {
        '3'
    } else if d == 4 {
        '4'
    } else if d == 5 {
        '5'
    } else if d == 6 {
        '6'
    } else if d == 7 {
        '7'
    } else if d == 8 {
        '8'
    } else if d == 9 {
        '9'
    } else if d == 10 {
        'a'
    } else if d == 11 {
        'b'
    } else if d == 12 {
        'c'
    } else if d == 13 {
        'd'
    } else if d == 14 {
        'e'
    } else {
        'f'
    }
}

/// Valid hex text: an even number of characters, all of them hex digits.
pub open spec fn is_valid_hex(s: Seq<char>) -> bool {
    s.len() % 2 == 0 && (forall|i: int| 0 <= i < s.len() ==> is_hex_digit(#[trigger] s[i]))
}

/// The bytes that valid hex text stands for: each pair of digits is one
/// byte, high digit first.
pub open spec fn spec_hex_decode(s: Seq<char>) -> Seq<u8> {
    Seq::new(
        (s.len() / 2) as nat,
        |i: int| (16 * hex_digit_value(s[2 * i]) + hex_digit_value(s[2 * i + 1])) as u8,
    )
}

/// The lowercase hex text that stands for a byte sequence: two digits for
/// each byte, high digit first.
pub open spec fn spec_hex_encode(b: Seq<u8>) -> Seq<char> {
    Seq::new(
        (2 * b.len()) as nat,
        |i: int|
            if i % 2 == 0 {
                lower_hex_digit(b[i / 2] as int / 16)
            } else {
                lower_hex_digit(b[i / 2] as int % 16)
            },
    )
}

/// Hex text with every digit lowered: the normalized form that encoding a
/// decoded payload reproduces.
pub open spec fn to_lower_hex(s: Seq<char>) -> Seq<char> {
    Seq::new(s.len(), |i: int| lower_hex_digit(hex_digit_value(s[i])))
}

proof fn lemma_digit_value_round_trip(d: int)
    requires
        0 <= d < 16,
    ensures
        is_hex_digit(lower_hex_digit(d)),
        hex_digit_value(lower_hex_digit(d)) == d,
{
}

proof fn lemma_pair_split(a: int, b: int)
    by (nonlinear_arith)
    requires
        0 <= a < 16,
        0 <= b < 16,
    ensures
        (16 * a + b) / 16 == a,
        (16 * a + b) % 16 == b,
        0 <= 16 * a + b < 256,
{
}

/// Law: encoding any byte sequence yields valid hex text, and decoding that
/// text gives the original bytes back.
pub proof fn lemma_encode_then_decode(b: Seq<u8>)
    ensures
        is_valid_hex(spec_hex_encode(b)),
        spec_hex_decode(spec_hex_encode(b)) == b,
{
    let e = spec_hex_encode(b);
    assert forall|i: int| 0 <= i < e.len() implies is_hex_digit(#[trigger] e[i]) by {
        if i % 2 == 0 {
            lemma_digit_value_round_trip(b[i / 2] as int / 16);
        } else {
            lemma_digit_value_round_trip(b[i / 2] as int % 16);
        }
    }
    assert forall|i: int| 0 <= i < b.len() implies spec_hex_decode(e)[i] == b[i] by {
        assert(e[2 * i] == lower_hex_digit(b[i] as int / 16));
        assert(e[2 * i + 1] == lower_hex_digit(b[i] as int % 16));
        lemma_digit_value_round_trip(b[i] as int / 16);
        lemma_digit_value_round_trip(b[i] as int % 16);
        lemma_pair_split(b[i] as int / 16, b[i] as int % 16);
    }
    assert(spec_hex_decode(e) =~= b);
}

/// Law: decoding valid hex text and encoding the bytes again reproduces the
/// text in its normalized, lowercase form.
pub proof fn lemma_decode_then_encode(s: Seq<char>)
    requires
        is_valid_hex(s),
    ensures
        spec_hex_encode(spec_hex_decode(s)) == to_lower_hex(s),
{
    let d = spec_hex_decode(s);
    let e = spec_hex_encode(d);
    assert(e.len() == to_lower_hex(s).len());
    assert forall|i: int| 0 <= i < e.len() implies e[i] == to_lower_hex(s)[i] by {
        let j = i / 2;
        assert(0 <= j < d.len());
        assert(is_hex_digit(s[2 * j]) && is_hex_digit(s[2 * j + 1]));
        lemma_pair_split(hex_digit_value(s[2 * j]), hex_digit_value(s[2 * j + 1]));
        if i % 2 == 0 {
            assert(i == 2 * j);
            assert(e[i] == lower_hex_digit(d[j] as int / 16));
        } else {
            assert(i == 2 * j + 1);
            assert(e[i] == lower_hex_digit(d[j] as int % 16));
        }
    }
    assert(e =~= to_lower_hex(s));
}

/// Why hex decoding failed: an odd number of digits, or a character that is
/// not a hex digit, with where it stands.
#[derive(Debug, Clone, PartialEq, Eq)]
pub enum HexDecodeError {
    OddLength,
    InvalidHexCharacter(char, usize),
}

/// Relies on hex::decode: two hex digits become one byte; an odd-length
/// input fails before anything is read, and otherwise the first character
/// that is no hex digit is reported with its position. The positional detail
/// holds of text whose characters and bytes coincide.
#[verifier::external_body]
pub fn hex_decode(s: &str) -> (r: Result<Vec<u8>, HexDecodeError>)
    ensures
        (match r {
            Ok(bytes) => is_valid_hex(s@) && bytes@ == spec_hex_decode(s@),
            Err(e) => !is_valid_hex(s@) && (s.is_ascii() ==> match e {
                HexDecodeError::OddLength => s@.len() % 2 != 0,
                HexDecodeError::InvalidHexCharacter(c, i) => {
                    &&& s@.len() % 2 == 0
                    &&& 0 <= i < s@.len()
                    &&& s@[i as int] == c
                    &&& !is_hex_digit(c)
                    &&& (forall|j: int| 0 <= j < i ==> is_hex_digit(#[trigger] s@[j]))
                },
            }),
        }),
{
    match hex::decode(s) {
        Ok(bytes) => Ok(bytes),
        Err(hex::FromHexError::OddLength) => Err(HexDecodeError::OddLength),
        Err(hex::FromHexError::InvalidHexCharacter { c, index }) => Err(
            HexDecodeError::InvalidHexCharacter(c, index),
        ),
        Err(hex::FromHexError::InvalidStringLength) => Err(HexDecodeError::OddLength),
    }
}

/// Relies on hex::encode: lowercase hex text, two digits for each byte.
#[verifier::external_body]
pub fn hex_encode(bytes: &[u8]) -> (r: String)
    ensures
        r@ == spec_hex_encode(bytes@),
{
    hex::encode(bytes)
}

} // verus!
