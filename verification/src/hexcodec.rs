//! Hexadecimal text and the fixed-size values that the API writes in it.

use vstd::prelude::*;
use vstd::slice::slice_subrange;
use vstd::utf8::is_ascii_chars;
use crate::text::{ascii_bytes, ascii_bytes_of};

verus! {

/// The failure that `hex` reports for text it cannot decode.
#[verifier::external_type_specification]
#[verifier::external_body]
pub struct ExFromHexError(hex::FromHexError);

/// The value of one hexadecimal digit, in either case; `None` for any other
/// byte.
pub open spec fn hex_digit(b: u8) -> Option<u8> {
    if 48 <= b <= 57 {
        Some((b - 48) as u8)
    } else if 97 <= b <= 102 {
        Some((b - 87) as u8)
    } else if 65 <= b <= 70 {
        Some((b - 55) as u8)
    } else {
        None
    }
}

/// True of an even number of hexadecimal digits.
pub open spec fn is_hex(s: Seq<u8>) -> bool {
    &&& s.len() % 2 == 0
    &&& forall|i: int| 0 <= i < s.len() ==> hex_digit(#[trigger] s[i]) is Some
}

/// The bytes that the digit pairs of `s` write, first digit high.
pub open spec fn hex_value(s: Seq<u8>) -> Seq<u8> {
    Seq::new(
        s.len() / 2,
        |i: int| (hex_digit(s[2 * i]).unwrap() * 16 + hex_digit(s[2 * i + 1]).unwrap()) as u8,
    )
}

/// The lower-case digit for a value below sixteen.
pub open spec fn hex_char(n: int) -> char {
    if n < 10 {
        (48 + n) as char
    } else {
        (87 + n) as char
    }
}

/// Two lower-case digits for each byte, high digit first.
pub open spec fn hex_text(bytes: Seq<u8>) -> Seq<char> {
    Seq::new(
        2 * bytes.len(),
        |i: int|
            hex_char(
                if i % 2 == 0 {
                    bytes[i / 2] as int / 16
                } else {
                    bytes[i / 2] as int % 16
                },
            ),
    )
}

/// `hex::decode`: succeeds exactly on an even number of hexadecimal digits
/// of either case, and then yields one byte per pair, the first digit being
/// the high half.
#[verifier::external_body]
fn hex_decode(digits: &[u8]) -> (r: Result<Vec<u8>, hex::FromHexError>)
    ensures
        r is Ok <==> is_hex(digits@),
        r matches Ok(bytes) ==> bytes@ == hex_value(digits@),
{
    hex::decode(digits)
}

/// `hex::encode`: two lower-case digits per byte, high half first.
#[verifier::external_body]
pub(crate) fn hex_encode(bytes: &[u8]) -> (r: String)
    ensures
        r@ == hex_text(bytes@),
{
    hex::encode(bytes)
}

/// The bytes written by hexadecimal `digits`, or `None` where they are not
/// an even number of hexadecimal digits.
pub fn decode_hex(digits: &[u8]) -> (r: Option<Vec<u8>>)
    ensures
        r is Some <==> is_hex(digits@),
        r matches Some(bytes) ==> bytes@ == hex_value(digits@),
{
    match hex_decode(digits) {
        Ok(bytes) => Some(bytes),
        Err(_) => None,
    }
}

/// True where `s` begins with the two bytes `0x`.
pub open spec fn has_0x(s: Seq<u8>) -> bool {
    s.len() >= 2 && s[0] == 48 && s[1] == 120
}

/// The bytes of `src` as an array of `N` bytes, where `src` holds that
/// many.
pub fn to_array<const N: usize>(src: &Vec<u8>) -> (r: Option<[u8; N]>)
    ensures
        r is Some <==> src@.len() == N,
        r matches Some(out) ==> out@ == src@,
{
    if src.len() != N {
        return None;
    }
    let mut out = [0u8; N];
    let mut i: usize = 0;
    while i < N
        invariant
            i <= N,
            src@.len() == N,
            forall|j: int| 0 <= j < i ==> out@[j] == src@[j],
        decreases N - i,
    {
        out[i] = src[i];
        i += 1;
    }
    assert(out@ =~= src@);
    Some(out)
}

/// What is left of `s` once a leading `0x` is dropped.
pub open spec fn after_0x(s: Seq<u8>) -> Seq<u8> {
    if has_0x(s) {
        s.skip(2)
    } else {
        s
    }
}

/// The `n` bytes that `s` writes: `0x`, which may be left out unless
/// `prefixed` asks for it, then exactly `2 * n` hexadecimal digits. `None`
/// for every other byte string.
pub open spec fn fixed_value(s: Seq<u8>, n: nat, prefixed: bool) -> Option<Seq<u8>> {
    let digits = after_0x(s);
    if (has_0x(s) || !prefixed) && is_hex(digits) && digits.len() == 2 * n {
        Some(hex_value(digits))
    } else {
        None
    }
}

/// `fixed_value` of text: `None` as well where a character is not ASCII.
pub open spec fn fixed_text_value(s: Seq<char>, n: nat, prefixed: bool) -> Option<Seq<u8>> {
    if is_ascii_chars(s) {
        fixed_value(ascii_bytes(s), n, prefixed)
    } else {
        None
    }
}

/// Reads a value of `N` bytes from hexadecimal bytes.
pub fn decode_fixed<const N: usize>(bytes: &[u8], prefixed: bool) -> (r: Option<[u8; N]>)
    ensures
        r is Some <==> fixed_value(bytes@, N as nat, prefixed) is Some,
        r matches Some(a) ==> Some(a@) == fixed_value(bytes@, N as nat, prefixed),
{
    let n: usize = bytes.len();
    let found: bool = n >= 2 && bytes[0] == 48 && bytes[1] == 120;
    if prefixed && !found {
        return None;
    }
    let digits = if found {
        slice_subrange(bytes, 2, n)
    } else {
        bytes
    };
    assert(digits@ =~= after_0x(bytes@));
    match decode_hex(digits) {
        Some(value) => to_array::<N>(&value),
        None => None,
    }
}

/// Reads a value of `N` bytes from hexadecimal text.
pub fn decode_fixed_text<const N: usize>(text: &str, prefixed: bool) -> (r: Option<[u8; N]>)
    ensures
        r is Some <==> fixed_text_value(text@, N as nat, prefixed) is Some,
        r matches Some(a) ==> Some(a@) == fixed_text_value(text@, N as nat, prefixed),
{
    match ascii_bytes_of(text) {
        Some(bytes) => decode_fixed::<N>(bytes.as_slice(), prefixed),
        None => None,
    }
}

/// `s` with every `0x` taken out, reading from the left; what the removal
/// of one pair brings together is not looked at again.
pub open spec fn without_0x(s: Seq<u8>) -> Seq<u8>
    decreases s.len(),
{
    if s.len() == 0 {
        s
    } else if has_0x(s) {
        without_0x(s.skip(2))
    } else {
        seq![s[0]] + without_0x(s.skip(1))
    }
}

/// The bytes of a payload of any length: every `0x` is dropped from the
/// text, and what is left has to be an even number of hexadecimal digits.
pub open spec fn payload_value(s: Seq<u8>) -> Option<Seq<u8>> {
    let digits = without_0x(s);
    if is_hex(digits) {
        Some(hex_value(digits))
    } else {
        None
    }
}

/// `payload_value` of text: `None` as well where a character is not ASCII.
pub open spec fn payload_text_value(s: Seq<char>) -> Option<Seq<u8>> {
    if is_ascii_chars(s) {
        payload_value(ascii_bytes(s))
    } else {
        None
    }
}

/// Drops every `0x` from `bytes`.
pub fn remove_0x(bytes: &[u8]) -> (out: Vec<u8>)
    ensures
        out@ == without_0x(bytes@),
{
    let n: usize = bytes.len();
    let mut out: Vec<u8> = Vec::new();
    let mut i: usize = 0;
    assert(bytes@.skip(0) =~= bytes@);
    assert(out@ + without_0x(bytes@) =~= without_0x(bytes@));
    while i < n
        invariant
            i <= n,
            n == bytes@.len(),
            out@ + without_0x(bytes@.skip(i as int)) == without_0x(bytes@),
        decreases n - i,
    {
        let ghost rest = bytes@.skip(i as int);
        if bytes[i] == 48 && i + 1 < n && bytes[i + 1] == 120 {
            assert(has_0x(rest));
            assert(rest.skip(2) =~= bytes@.skip(i + 2));
            i += 2;
        } else {
            assert(!has_0x(rest));
            assert(rest.skip(1) =~= bytes@.skip(i + 1));
            assert(out@.push(bytes@[i as int]) + without_0x(rest.skip(1)) =~= out@ + (seq![rest[0]]
                + without_0x(rest.skip(1))));
            out.push(bytes[i]);
            i += 1;
        }
    }
    assert(bytes@.skip(n as int) =~= Seq::<u8>::empty());
    assert(out@ + Seq::<u8>::empty() =~= out@);
    out
}

/// Reads a payload of any length from hexadecimal text.
pub fn decode_payload_text(text: &str) -> (r: Option<Vec<u8>>)
    ensures
        r is Some <==> payload_text_value(text@) is Some,
        r matches Some(v) ==> Some(v@) == payload_text_value(text@),
{
    match ascii_bytes_of(text) {
        Some(bytes) => {
            let digits = remove_0x(bytes.as_slice());
            decode_hex(digits.as_slice())
        },
        None => None,
    }
}

} // verus!
