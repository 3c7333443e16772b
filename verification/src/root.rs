//! Block roots as text and as bytes.

use vstd::prelude::*;
use vstd::string::*;
use crate::hexcodec::{
    after_0x, decode_fixed_text, fixed_text_value, has_0x, hex_char, hex_digit,
    hex_encode, hex_text, hex_value, is_hex,
};
use crate::text::ascii_bytes;
use crate::types::{BlockRoot, Hash256};

verus! {

impl View for BlockRoot {
    type V = Option<Seq<u8>>;

    /// `None` for the empty mark, else the 32 bytes.
    open spec fn view(&self) -> Option<Seq<u8>> {
        match *self {
            BlockRoot::Empty => None,
            BlockRoot::Root(bytes) => Some(bytes@),
        }
    }
}

/// The root that `s` writes. Empty text is the empty mark. Any other text
/// has to write 32 bytes in hexadecimal, of either case, with or without
/// `0x` before them; for all else the result is `None`.
pub open spec fn root_value(s: Seq<char>) -> Option<Option<Seq<u8>>> {
    if s.len() == 0 {
        Some(None)
    } else {
        match fixed_text_value(s, 32, false) {
            Some(bytes) => Some(Some(bytes)),
            None => None,
        }
    }
}

/// The text of a root: nothing for the empty mark, else `0x` and the bytes
/// in lower-case hexadecimal.
pub open spec fn root_text(root: Option<Seq<u8>>) -> Seq<char> {
    match root {
        None => Seq::empty(),
        Some(bytes) => seq!['0', 'x'] + hex_text(bytes),
    }
}

/// True of the text that `root_text` produces: empty, or `0x` followed by
/// characters none of which is an upper-case letter.
pub open spec fn is_canonical(s: Seq<char>) -> bool {
    s.len() == 0 || (s.len() >= 2 && s[0] == '0' && s[1] == 'x' && forall|i: int|
        2 <= i < s.len() ==> !('A' <= #[trigger] s[i] <= 'Z'))
}

/// Reads a root from text.
pub fn parse_root(text: &str) -> (r: Option<BlockRoot>)
    ensures
        r is Some <==> root_value(text@) is Some,
        r matches Some(root) ==> Some(root@) == root_value(text@),
{
    if text.is_empty() {
        Some(BlockRoot::Empty)
    } else {
        match decode_fixed_text::<32>(text, false) {
            Some(bytes) => Some(BlockRoot::Root(bytes)),
            None => None,
        }
    }
}

impl BlockRoot {
    /// Writes the root as text.
    pub fn to_hex(&self) -> (r: String)
        ensures
            r@ == root_text(self@),
    {
        match self {
            BlockRoot::Empty => String::new(),
            BlockRoot::Root(bytes) => {
                let digits = hex_encode(bytes.as_slice());
                proof {
                    reveal_strlit("0x");
                }
                let r = String::from_str("0x").concat(digits.as_str());
                assert(r@ =~= seq!['0', 'x'] + hex_text(bytes@));
                r
            },
        }
    }

    /// The 32 bytes under which the record of this root is stored: the
    /// root's own, and zeros for the empty mark.
    pub fn key(&self) -> (r: Hash256)
        ensures
            r@ == key_bytes(self@),
    {
        match self {
            BlockRoot::Empty => {
                let zeros = [0u8; 32];
                assert(zeros@ =~= key_bytes(None));
                zeros
            },
            BlockRoot::Root(bytes) => *bytes,
        }
    }
}

/// The storage key of a root: its bytes, or 32 zeros for the empty mark.
pub open spec fn key_bytes(root: Option<Seq<u8>>) -> Seq<u8> {
    match root {
        None => Seq::new(32, |i: int| 0u8),
        Some(bytes) => bytes,
    }
}

/// A lower-case digit reads back as the value it was written for.
proof fn lemma_hex_char_reads_back(n: int)
    requires
        0 <= n < 16,
    ensures
        hex_digit(hex_char(n) as u8) == Some(n as u8),
        '\0' <= hex_char(n) <= '\u{7f}',
        !('A' <= hex_char(n) <= 'Z'),
{
}

/// Text that `root_text` wrote reads back as the root it was written for.
pub proof fn law_text_of_root_reads_back(root: Option<Seq<u8>>)
    requires
        root matches Some(bytes) ==> bytes.len() == 32,
    ensures
        root_value(root_text(root)) == Some(root),
        is_canonical(root_text(root)),
{
    if let Some(bytes) = root {
        let s = root_text(root);
        let b = ascii_bytes(s);
        assert(s.len() == 66);
        assert forall|i: int| 0 <= i < s.len() implies '\0' <= #[trigger] s[i] <= '\u{7f}' && (2
            <= i ==> !('A' <= s[i] <= 'Z')) by {
            if i >= 2 {
                let j = i - 2;
                assert(s[i] == hex_text(bytes)[j]);
                lemma_hex_char_reads_back(bytes[j / 2] as int / 16);
                lemma_hex_char_reads_back(bytes[j / 2] as int % 16);
            }
        }
        assert(has_0x(b));
        let digits = after_0x(b);
        assert(digits.len() == 64);
        assert forall|j: int| 0 <= j < 64 implies hex_digit(#[trigger] digits[j]) == Some(
            (if j % 2 == 0 {
                bytes[j / 2] as int / 16
            } else {
                bytes[j / 2] as int % 16
            }) as u8,
        ) by {
            assert(digits[j] == b[j + 2]);
            assert(s[j + 2] == hex_text(bytes)[j]);
            lemma_hex_char_reads_back(bytes[j / 2] as int / 16);
            lemma_hex_char_reads_back(bytes[j / 2] as int % 16);
        }
        assert(is_hex(digits));
        assert forall|k: int| 0 <= k < 32 implies #[trigger] hex_value(digits)[k] == bytes[k] by {
            assert(hex_digit(digits[2 * k]) == Some((bytes[k] as int / 16) as u8));
            assert(hex_digit(digits[2 * k + 1]) == Some((bytes[k] as int % 16) as u8));
        }
        assert(hex_value(digits) =~= bytes);
    } else {
        assert(root_text(root).len() == 0);
    }
}

/// A digit that is not upper-case is written back as it was read.
proof fn lemma_lower_digit_writes_back(c: char)
    requires
        '\0' <= c <= '\u{7f}',
        hex_digit(c as u8) is Some,
        !('A' <= c <= 'Z'),
    ensures
        hex_char(hex_digit(c as u8).unwrap() as int) == c,
{
}

/// The two halves of a byte put together from two digits are those digits.
proof fn lemma_byte_halves(hi: u8, lo: u8)
    requires
        hi < 16,
        lo < 16,
    ensures
        ((hi * 16 + lo) as u8) as int / 16 == hi,
        ((hi * 16 + lo) as u8) as int % 16 == lo,
{
}

/// The character that `hex_text` writes at place `j` for the bytes that
/// the digits `d` stand for is the digit at that place, unless that digit is
/// upper-case.
proof fn lemma_digit_round_trip(d: Seq<u8>, c: char, j: int)
    requires
        is_hex(d),
        0 <= j < d.len(),
        '\0' <= c <= '\u{7f}',
        d[j] == c as u8,
        !('A' <= c <= 'Z'),
    ensures
        hex_text(hex_value(d))[j] == c,
{
    let k = j / 2;
    assert(hex_digit(d[2 * k]) is Some);
    assert(hex_digit(d[2 * k + 1]) is Some);
    let hi = hex_digit(d[2 * k]).unwrap();
    let lo = hex_digit(d[2 * k + 1]).unwrap();
    lemma_byte_halves(hi, lo);
    assert(hex_value(d)[k] == (hi * 16 + lo) as u8);
    lemma_lower_digit_writes_back(c);
}

/// Round trip. Text that decodes to a root, written back, is the text it
/// was read from exactly where that text is canonical: empty, or with `0x`
/// and without upper-case digits.
pub proof fn law_root_round_trip(s: Seq<char>)
    requires
        root_value(s) is Some,
    ensures
        root_text(root_value(s).unwrap()) == s <==> is_canonical(s),
{
    let root = root_value(s).unwrap();
    if s.len() > 0 {
        let b = ascii_bytes(s);
        let digits = after_0x(b);
        let t = root_text(root);
        law_text_of_root_reads_back(root);
        if is_canonical(s) {
            assert(has_0x(b));
            assert forall|i: int| 0 <= i < 66 implies s[i] == t[i] by {
                if i >= 2 {
                    assert(digits[i - 2] == b[i]);
                    lemma_digit_round_trip(digits, s[i], i - 2);
                    assert(t[i] == hex_text(hex_value(digits))[i - 2]);
                }
            }
            assert(t =~= s);
        }
    } else {
        assert(root_text(root) =~= s);
    }
}

} // verus!
