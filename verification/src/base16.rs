//! Hexadecimal text: two digits for each byte, the high half first.

use vstd::prelude::*;

verus! {

/// A decimal digit or a letter `a` to `f`, in either case.
pub open spec fn is_hex_digit(c: char) -> bool {
    ('0' <= c <= '9') || ('a' <= c <= 'f') || ('A' <= c <= 'F')
}

/// The number that a hex digit stands for.
pub open spec fn digit_value(c: char) -> int
    recommends
        is_hex_digit(c),
{
    if '0' <= c <= '9' {
        c as int - '0' as int
    } else if 'a' <= c <= 'f' {
        c as int - 'a' as int + 10
    } else {
        c as int - 'A' as int + 10
    }
}

/// Every character of `s` is a hex digit.
pub open spec fn is_hex(s: Seq<char>) -> bool {
    forall|i: int| 0 <= i < s.len() ==> is_hex_digit(#[trigger] s[i])
}

/// The byte that the digits `hi` and `lo` spell.
pub open spec fn byte_of_digits(hi: char, lo: char) -> u8
    recommends
        is_hex_digit(hi),
        is_hex_digit(lo),
{
    (16 * digit_value(hi) + digit_value(lo)) as u8
}

/// The bytes that an even number of hex digits spell.
pub open spec fn bytes_of_hex(s: Seq<char>) -> Seq<u8>
    recommends
        is_hex(s),
        s.len() % 2 == 0,
{
    Seq::new(s.len() / 2, |i: int| byte_of_digits(s[2 * i], s[2 * i + 1]))
}

/// The lower-case digit for a number below sixteen.
pub open spec fn lower_digit(n: int) -> char
    recommends
        0 <= n < 16,
{
    if n < 10 {
        (n + '0' as int) as u8 as char
    } else {
        (n - 10 + 'a' as int) as u8 as char
    }
}

/// The lower-case hex text of `bytes`.
pub open spec fn hex_of_bytes(bytes: Seq<u8>) -> Seq<char> {
    Seq::new(
        2 * bytes.len(),
        |i: int|
            if i % 2 == 0 {
                lower_digit(bytes[i / 2] as int / 16)
            } else {
                lower_digit(bytes[i / 2] as int % 16)
            },
    )
}

/// Lower-case text is made of hex digits, and spells the bytes it was made
/// from.
pub proof fn lemma_hex_round_trip(bytes: Seq<u8>)
    ensures
        hex_of_bytes(bytes).len() == 2 * bytes.len(),
        is_hex(hex_of_bytes(bytes)),
        bytes_of_hex(hex_of_bytes(bytes)) == bytes,
{
    let text = hex_of_bytes(bytes);
    assert forall|i: int| 0 <= i < text.len() implies is_hex_digit(#[trigger] text[i]) by {
        let b = bytes[i / 2] as int;
        assert(0 <= b / 16 < 16 && 0 <= b % 16 < 16);
    }
    assert forall|i: int| 0 <= i < bytes.len() implies bytes_of_hex(text)[i] == bytes[i] by {
        let b = bytes[i] as int;
        assert(0 <= b / 16 < 16 && 0 <= b % 16 < 16);
        assert((2 * i) / 2 == i && (2 * i + 1) / 2 == i);
        assert(digit_value(lower_digit(b / 16)) == b / 16);
        assert(digit_value(lower_digit(b % 16)) == b % 16);
        assert(16 * (b / 16) + b % 16 == b);
    }
    assert(bytes_of_hex(text) =~= bytes);
}

/// The value of one hex digit, or `None` for any other character.
pub fn hex_digit(c: char) -> (r: Option<u8>)
    ensures
        r is Some <==> is_hex_digit(c),
        r matches Some(v) ==> v == digit_value(c),
{
    if c >= '0' && c <= '9' {
        Some((c as u32 - '0' as u32) as u8)
    } else if c >= 'a' && c <= 'f' {
        Some((c as u32 - 'a' as u32 + 10) as u8)
    } else if c >= 'A' && c <= 'F' {
        Some((c as u32 - 'A' as u32 + 10) as u8)
    } else {
        None
    }
}

/// Decodes hex text: `None` where the number of characters is odd or one of
/// them is no hex digit.
pub fn decode(digits: &[char]) -> (r: Option<Vec<u8>>)
    ensures
        r is Some <==> digits@.len() % 2 == 0 && is_hex(digits@),
        r matches Some(bytes) ==> bytes@ == bytes_of_hex(digits@),
{
    let n = digits.len();
    if n % 2 != 0 {
        return None;
    }
    let mut bytes: Vec<u8> = Vec::new();
    let mut i: usize = 0;
    while i < n
        invariant
            n == digits@.len(),
            n % 2 == 0,
            i % 2 == 0,
            i <= n,
            bytes@.len() == i / 2,
            forall|k: int| 0 <= k < i ==> is_hex_digit(#[trigger] digits@[k]),
            forall|k: int| 0 <= k < bytes@.len() ==> bytes@[k] == byte_of_digits(digits@[2 * k], digits@[2 * k + 1]),
        decreases n - i,
    {
        let hi = match hex_digit(digits[i]) {
            Some(v) => v,
            None => { return None; },
        };
        let lo = match hex_digit(digits[i + 1]) {
            Some(v) => v,
            None => { return None; },
        };
        bytes.push(16 * hi + lo);
        i = i + 2;
    }
    assert(bytes@ =~= bytes_of_hex(digits@));
    Some(bytes)
}

/// The lower-case hex text of `bytes`, as `hex::encode` writes it: for each
/// byte two characters of `0123456789abcdef`, the high four bits first.
#[verifier::external_body]
pub(crate) fn encode_lower(bytes: &[u8]) -> (r: String)
    ensures
        r@ == hex_of_bytes(bytes@),
{
    hex::encode(bytes)
}

} // verus!
