//! Small verified operations on strings and byte strings.

use vstd::prelude::*;
use vstd::utf8::char_is_scalar;
use vstd::utf8::char_u32_cast;
use vstd::utf8::encode_scalar;
use vstd::utf8::encode_utf8;
use vstd::utf8::encode_utf8_decode_utf8;

verus! {

/// The views of a sequence of strings.
pub open spec fn texts(strings: Seq<String>) -> Seq<Seq<char>> {
    strings.map_values(|s: String| s@)
}

/// Whether two byte slices hold the same bytes.
pub fn bytes_eq(a: &[u8], b: &[u8]) -> (same: bool)
    ensures
        same == (a@ == b@),
{
    if a.len() != b.len() {
        return false;
    }
    let mut i: usize = 0;
    while i < a.len()
        invariant
            a@.len() == b@.len(),
            i <= a@.len(),
            a@.take(i as int) == b@.take(i as int),
        decreases a@.len() - i,
    {
        if a[i] != b[i] {
            assert(a@[i as int] != b@[i as int]);
            return false;
        }
        assert(a@.take(i + 1) == a@.take(i as int).push(a@[i as int]));
        assert(b@.take(i + 1) == b@.take(i as int).push(b@[i as int]));
        i += 1;
    }
    assert(a@.take(a@.len() as int) == a@);
    assert(b@.take(b@.len() as int) == b@);
    true
}

/// Appends `bytes` to `out`.
pub fn append_bytes(out: &mut Vec<u8>, bytes: &[u8])
    ensures
        final(out)@ == old(out)@ + bytes@,
{
    let mut i: usize = 0;
    while i < bytes.len()
        invariant
            i <= bytes@.len(),
            out@ == old(out)@ + bytes@.take(i as int),
        decreases bytes@.len() - i,
    {
        out.push(bytes[i]);
        assert(bytes@.take(i + 1) == bytes@.take(i as int).push(bytes@[i as int]));
        i += 1;
    }
    assert(bytes@.take(bytes@.len() as int) == bytes@);
}

/// The character that writes the digit `d`.
pub open spec fn digit_char(d: nat) -> char
    recommends
        d < 10,
{
    if d == 0 {
        '0'
    } else if d == 1 {
        '1'
    } else if d == 2 {
        '2'
    } else if d == 3 {
        '3'
    } else if d == 4 {
        '4'
    } else if d == 5 {
        '5'
    } else if d == 6 {
        '6'
    } else if d == 7 {
        '7'
    } else if d == 8 {
        '8'
    } else {
        '9'
    }
}

/// The decimal digits of `n`, most significant first, without leading zeros.
pub open spec fn decimal_digits(n: nat) -> Seq<char>
    decreases n,
{
    if n < 10 {
        seq![digit_char(n)]
    } else {
        decimal_digits(n / 10).push(digit_char(n % 10))
    }
}

fn digit_str(d: u64) -> (s: &'static str)
    requires
        d < 10,
    ensures
        s@ == seq![digit_char(d as nat)],
{
    proof {
        reveal_strlit("0");
        reveal_strlit("1");
        reveal_strlit("2");
        reveal_strlit("3");
        reveal_strlit("4");
        reveal_strlit("5");
        reveal_strlit("6");
        reveal_strlit("7");
        reveal_strlit("8");
        reveal_strlit("9");
    }
    let s = if d == 0 {
        "0"
    } else if d == 1 {
        "1"
    } else if d == 2 {
        "2"
    } else if d == 3 {
        "3"
    } else if d == 4 {
        "4"
    } else if d == 5 {
        "5"
    } else if d == 6 {
        "6"
    } else if d == 7 {
        "7"
    } else if d == 8 {
        "8"
    } else {
        "9"
    };
    assert(s@ =~= seq![digit_char(d as nat)]);
    s
}

/// Writes `n` in decimal.
pub fn decimal(n: u64) -> (text: String)
    ensures
        text@ == decimal_digits(n as nat),
    decreases n,
{
    if n < 10 {
        String::from_str(digit_str(n))
    } else {
        let mut text = decimal(n / 10);
        text.append(digit_str(n % 10));
        assert(text@ =~= decimal_digits(n as nat));
        text
    }
}

/// Two strings have the same UTF-8 bytes exactly when they hold the same characters.
pub proof fn lemma_utf8_injective(a: Seq<char>, b: Seq<char>)
    ensures
        (encode_utf8(a) == encode_utf8(b)) == (a == b),
{
    encode_utf8_decode_utf8(a);
    encode_utf8_decode_utf8(b);
}

/// Whether two strings hold the same characters.
pub fn str_eq(a: &str, b: &str) -> (same: bool)
    ensures
        same == (a@ == b@),
{
    proof {
        lemma_utf8_injective(a@, b@);
    }
    bytes_eq(a.as_bytes(), b.as_bytes())
}

/// The UTF-8 encoding of a string takes at most four bytes for each
/// character.
pub proof fn lemma_utf8_len_bound(chars: Seq<char>)
    ensures
        encode_utf8(chars).len() <= 4 * chars.len(),
    decreases chars.len(),
{
    if chars.len() > 0 {
        lemma_utf8_len_bound(chars.drop_first());
    }
}

/// The UTF-8 encoding of a character other than the zero character holds no
/// zero byte.
pub proof fn lemma_scalar_holds_no_zero_byte(c: char)
    requires
        c != '\0',
    ensures
        forall|j: int|
            0 <= j < encode_scalar(c as u32).len() ==> (#[trigger] encode_scalar(c as u32)[j])
                != 0,
{
    let s = c as u32;
    char_is_scalar(c);
    assert(s != 0) by {
        if s == 0 {
            char_u32_cast(c, s);
        }
    }
    assert(0 < s <= 0x7F ==> (s & 0x7F) as u8 != 0) by (bit_vector);
    assert((0xC0u8 | ((s >> 6) & 0x1F) as u8) != 0) by (bit_vector);
    assert((0xE0u8 | ((s >> 12) & 0x0F) as u8) != 0) by (bit_vector);
    assert((0xF0u8 | ((s >> 18) & 0x7) as u8) != 0) by (bit_vector);
    assert((0x80u8 | (s & 0x3F) as u8) != 0) by (bit_vector);
    assert((0x80u8 | ((s >> 6) & 0x3F) as u8) != 0) by (bit_vector);
    assert((0x80u8 | ((s >> 12) & 0x3F) as u8) != 0) by (bit_vector);
}

/// The UTF-8 encoding of text without the zero character holds no zero
/// byte.
pub proof fn lemma_utf8_holds_no_zero_byte(chars: Seq<char>)
    requires
        forall|i: int| 0 <= i < chars.len() ==> (#[trigger] chars[i]) != '\0',
    ensures
        forall|j: int|
            0 <= j < encode_utf8(chars).len() ==> (#[trigger] encode_utf8(chars)[j]) != 0,
    decreases chars.len(),
{
    if chars.len() > 0 {
        let first = encode_scalar(chars[0] as u32);
        let rest = chars.drop_first();
        lemma_scalar_holds_no_zero_byte(chars[0]);
        assert forall|i: int| 0 <= i < rest.len() implies (#[trigger] rest[i]) != '\0' by {
            assert(rest[i] == chars[i + 1]);
        }
        lemma_utf8_holds_no_zero_byte(rest);
        assert forall|j: int| 0 <= j < encode_utf8(chars).len() implies (#[trigger] encode_utf8(
            chars,
        )[j]) != 0 by {
            if j < first.len() {
                assert(encode_utf8(chars)[j] == first[j]);
            } else {
                assert(encode_utf8(chars)[j] == encode_utf8(rest)[j - first.len()]);
            }
        }
    }
}

/// Whether `needle` occurs in `hay` as a run of consecutive items.
pub open spec fn has_subslice(hay: Seq<u8>, needle: Seq<u8>) -> bool {
    exists|i: int| occurs_at(hay, needle, i)
}

/// Whether `needle` stands in `hay` at position `i`.
pub open spec fn occurs_at(hay: Seq<u8>, needle: Seq<u8>, i: int) -> bool {
    0 <= i && i + needle.len() <= hay.len() && hay.subrange(i, i + needle.len()) == needle
}

/// Whether `hay` ends with `needle`.
pub open spec fn has_suffix(hay: Seq<u8>, needle: Seq<u8>) -> bool {
    needle.len() <= hay.len() && hay.subrange(hay.len() - needle.len(), hay.len() as int)
        == needle
}

/// Whether `needle` stands in `hay` at position `at`.
pub fn bytes_match_at(hay: &[u8], needle: &[u8], at: usize) -> (found: bool)
    ensures
        found == occurs_at(hay@, needle@, at as int),
{
    if at > hay.len() || needle.len() > hay.len() - at {
        return false;
    }
    let part = vstd::slice::slice_subrange(hay, at, at + needle.len());
    bytes_eq(part, needle)
}

/// Whether `needle` occurs in `hay`.
pub fn bytes_contain(hay: &[u8], needle: &[u8]) -> (found: bool)
    ensures
        found == has_subslice(hay@, needle@),
{
    if needle.len() > hay.len() {
        return false;
    }
    let last = hay.len() - needle.len();
    let mut at: usize = 0;
    loop
        invariant
            last == hay@.len() - needle@.len(),
            at <= last,
            forall|i: int| 0 <= i < at ==> !occurs_at(hay@, needle@, i),
        decreases last - at,
    {
        if bytes_match_at(hay, needle, at) {
            return true;
        }
        if at == last {
            return false;
        }
        at += 1;
    }
}

/// Whether `hay` ends with `needle`.
pub fn bytes_end_with(hay: &[u8], needle: &[u8]) -> (found: bool)
    ensures
        found == has_suffix(hay@, needle@),
{
    if needle.len() > hay.len() {
        return false;
    }
    bytes_match_at(hay, needle, hay.len() - needle.len())
}

} // verus!
