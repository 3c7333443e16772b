//! Text as it arrives from the beacon API: ASCII bytes and decimal numbers.

use vstd::prelude::*;
use vstd::string::*;
use vstd::utf8::is_ascii_chars;

verus! {

/// The characters of `s` as bytes, one for one. Meaningful where every
/// character is ASCII.
pub open spec fn ascii_bytes(s: Seq<char>) -> Seq<u8> {
    Seq::new(s.len(), |i: int| s[i] as u8)
}

/// True of the ASCII digits `0` to `9`.
pub open spec fn is_digit(b: u8) -> bool {
    48 <= b <= 57
}

/// True where every byte of `s` is an ASCII digit.
pub open spec fn all_digits(s: Seq<u8>) -> bool {
    forall|i: int| 0 <= i < s.len() ==> is_digit(#[trigger] s[i])
}

/// The number that the digits of `s` write in base ten, most significant
/// digit first.
pub open spec fn digits_value(s: Seq<u8>) -> nat
    decreases s.len(),
{
    if s.len() == 0 {
        0
    } else {
        digits_value(s.drop_last()) * 10 + (s.last() - 48) as nat
    }
}

/// What is left of `s` once one leading plus sign is dropped.
pub open spec fn unsigned_part(s: Seq<u8>) -> Seq<u8> {
    if s.len() > 0 && s[0] == 43 {
        s.skip(1)
    } else {
        s
    }
}

/// The value of a decimal numeral: an optional plus sign, then one or more
/// digits whose value fits in 64 bits. `None` for every other byte string.
pub open spec fn decimal_value(s: Seq<u8>) -> Option<u64> {
    let d = unsigned_part(s);
    if d.len() > 0 && all_digits(d) && digits_value(d) <= u64::MAX {
        Some(digits_value(d) as u64)
    } else {
        None
    }
}

/// The value of a decimal numeral given as text.
pub open spec fn decimal_text_value(s: Seq<char>) -> Option<u64> {
    if is_ascii_chars(s) {
        decimal_value(ascii_bytes(s))
    } else {
        None
    }
}

/// The bytes of `text`, if all of it is ASCII.
pub fn ascii_bytes_of(text: &str) -> (r: Option<Vec<u8>>)
    ensures
        r is Some <==> is_ascii_chars(text@),
        r matches Some(bytes) ==> bytes@ == ascii_bytes(text@),
{
    if text.is_ascii() {
        broadcast use is_ascii_spec_bytes;

        let bytes = text.as_bytes_vec();
        assert(bytes@ =~= ascii_bytes(text@));
        Some(bytes)
    } else {
        None
    }
}

/// A longer digit string is worth at least as much as any of its prefixes.
proof fn lemma_digits_value_grows(s: Seq<u8>, k: int)
    requires
        0 <= k <= s.len(),
    ensures
        digits_value(s.take(k)) <= digits_value(s),
    decreases s.len() - k,
{
    if k == s.len() {
        assert(s.take(k) =~= s);
    } else {
        lemma_digits_value_grows(s, k + 1);
        assert(s.take(k + 1).drop_last() =~= s.take(k));
    }
}

/// Reads a decimal numeral from bytes.
pub fn parse_decimal_bytes(bytes: &[u8]) -> (r: Option<u64>)
    ensures
        r == decimal_value(bytes@),
{
    let n: usize = bytes.len();
    let start: usize = if n > 0 && bytes[0] == 43 { 1 } else { 0 };
    let ghost d = unsigned_part(bytes@);
    assert(d =~= bytes@.skip(start as int));
    if start == n {
        return None;
    }
    let mut value: u64 = 0;
    let mut i: usize = start;
    while i < n
        invariant
            start <= i <= n,
            n == bytes@.len(),
            d == bytes@.skip(start as int),
            d == unsigned_part(bytes@),
            all_digits(d.take(i - start)),
            value == digits_value(d.take(i - start)),
        decreases n - i,
    {
        let b: u8 = bytes[i];
        let ghost k = i - start;
        assert(d[k] == b);
        if b < 48 || b > 57 {
            assert(!is_digit(d[k]));
            return None;
        }
        proof {
            assert(d.take(k + 1).drop_last() =~= d.take(k));
            assert(d.take(k + 1).last() == b);
            assert forall|j: int| 0 <= j < k + 1 implies is_digit(#[trigger] d.take(k + 1)[j]) by {
                if j < k {
                    assert(d.take(k)[j] == d.take(k + 1)[j]);
                }
            }
            lemma_digits_value_grows(d, k + 1);
        }
        let next = match value.checked_mul(10) {
            Some(tens) => tens.checked_add((b - 48) as u64),
            None => None,
        };
        match next {
            Some(v) => {
                value = v;
            },
            None => {
                assert(digits_value(d.take(k + 1)) > u64::MAX);
                return None;
            },
        }
        i += 1;
    }
    assert(d.take(i - start) =~= d);
    Some(value)
}

/// Reads a decimal numeral from text, as the API writes slots and indices.
pub fn parse_decimal(text: &str) -> (r: Option<u64>)
    ensures
        r == decimal_text_value(text@),
{
    match ascii_bytes_of(text) {
        Some(bytes) => parse_decimal_bytes(bytes.as_slice()),
        None => None,
    }
}

/// The character of a digit below ten.
pub open spec fn digit_char(d: int) -> char {
    (48 + d) as char
}

/// The decimal numeral of `n`, without sign or leading zeros.
pub open spec fn decimal_text(n: nat) -> Seq<char>
    decreases n,
{
    if n < 10 {
        seq![digit_char(n as int)]
    } else {
        decimal_text(n / 10).push(digit_char((n % 10) as int))
    }
}

/// The text of one digit.
fn digit_str(d: usize) -> (r: &'static str)
    requires
        d < 10,
    ensures
        r@ == seq![digit_char(d as int)],
{
    proof {
        reveal_strlit("0");
        reveal_strlit("1");
        reveal_strlit("2");
        reveal_strlit("3");
        reveal_strlit("4");
        reveal_strlit("5");
        reveal_strlit("6");
        reveal_strlit("7");
        reveal_strlit("8");
        reveal_strlit("9");
    }
    let r = if d == 0 {
        "0"
    } else if d == 1 {
        "1"
    } else if d == 2 {
        "2"
    } else if d == 3 {
        "3"
    } else if d == 4 {
        "4"
    } else if d == 5 {
        "5"
    } else if d == 6 {
        "6"
    } else if d == 7 {
        "7"
    } else if d == 8 {
        "8"
    } else {
        "9"
    };
    assert(r@ =~= seq![digit_char(d as int)]);
    r
}

/// Appends the decimal numeral of `n` to `out`.
pub fn push_decimal(out: &mut String, n: usize)
    ensures
        final(out)@ == old(out)@ + decimal_text(n as nat),
    decreases n,
{
    if n >= 10 {
        push_decimal(out, n / 10);
    }
    out.append(digit_str(n % 10));
    proof {
        if n >= 10 {
            assert(old(out)@ + decimal_text(n as nat / 10).push(digit_char((n % 10) as int))
                =~= old(out)@ + decimal_text(n as nat / 10) + seq![digit_char((n % 10) as int)]);
        }
    }
}

/// A pushed digit counts last: the value so far times ten, plus the digit.
proof fn lemma_digits_value_push(s: Seq<u8>, d: u8)
    requires
        is_digit(d),
    ensures
        digits_value(s.push(d)) == digits_value(s) * 10 + (d - 48),
{
    assert(s.push(d).drop_last() =~= s);
}

/// The numeral of a number is digits only, begins with no plus sign, and
/// is worth that number.
proof fn lemma_decimal_text_digits(n: nat)
    ensures
        is_ascii_chars(decimal_text(n)),
        decimal_text(n).len() > 0,
        all_digits(ascii_bytes(decimal_text(n))),
        digits_value(ascii_bytes(decimal_text(n))) == n,
    decreases n,
{
    let last = digit_char((n % 10) as int);
    if n < 10 {
        let s = seq![last];
        assert(ascii_bytes(s) =~= Seq::<u8>::empty().push(last as u8));
        lemma_digits_value_push(Seq::<u8>::empty(), last as u8);
    } else {
        let front = decimal_text(n / 10);
        lemma_decimal_text_digits(n / 10);
        assert(ascii_bytes(front.push(last)) =~= ascii_bytes(front).push(last as u8));
        lemma_digits_value_push(ascii_bytes(front), last as u8);
    }
}

/// What is written reads back. The numeral that `push_decimal` writes for a
/// number is read by `parse_decimal` as that number.
pub proof fn law_decimal_round_trip(n: u64)
    ensures
        decimal_text_value(decimal_text(n as nat)) == Some(n),
{
    lemma_decimal_text_digits(n as nat);
    let b = ascii_bytes(decimal_text(n as nat));
    assert(is_digit(b[0]));
    assert(unsigned_part(b) == b);
}

} // verus!
