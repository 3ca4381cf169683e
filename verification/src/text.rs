//! Character classes and small string helpers shared by the parsers.

use vstd::prelude::*;
use vstd::string::*;
use vstd::utf8::is_ascii_chars;

verus! {

/// The ASCII letters and digits, as `char::is_ascii_alphanumeric` has them.
pub open spec fn is_ascii_alphanumeric(c: char) -> bool {
    ('0' <= c && c <= '9') || ('a' <= c && c <= 'z') || ('A' <= c && c <= 'Z')
}

/// Every character of `s` is an ASCII letter or digit.
pub open spec fn all_ascii_alphanumeric(s: Seq<char>) -> bool {
    forall|i: int| 0 <= i < s.len() ==> is_ascii_alphanumeric(#[trigger] s[i])
}

/// The byte `b` is the code of an ASCII letter or digit.
pub open spec fn is_alphanumeric_byte(b: u8) -> bool {
    (0x30 <= b && b <= 0x39) || (0x61 <= b && b <= 0x7a) || (0x41 <= b && b <= 0x5a)
}

/// Every byte of `draws` is the code of an ASCII letter or digit.
pub open spec fn all_alphanumeric_bytes(draws: Seq<u8>) -> bool {
    forall|i: int| 0 <= i < draws.len() ==> is_alphanumeric_byte(#[trigger] draws[i])
}

/// The text that bytes spell: each byte as the character with its code.
pub open spec fn spelled(draws: Seq<u8>) -> Seq<char> {
    Seq::new(draws.len(), |i: int| draws[i] as char)
}

/// Tells whether a byte is the code of an ASCII letter or digit.
pub fn alphanumeric_byte(b: u8) -> (r: bool)
    ensures
        r == is_alphanumeric_byte(b),
{
    (0x30 <= b && b <= 0x39) || (0x61 <= b && b <= 0x7a) || (0x41 <= b && b <= 0x5a)
}

/// Tells whether a string consists of ASCII letters and digits only.
pub fn is_alphanumeric_str(s: &str) -> (r: bool)
    ensures
        r == all_ascii_alphanumeric(s@),
{
    if !s.is_ascii() {
        proof {
            let i = choose|i: int| 0 <= i < s@.len() && !('\0' <= #[trigger] s@[i] <= '\u{7f}');
            assert(!is_ascii_alphanumeric(s@[i]));
        }
        return false;
    }
    proof {
        is_ascii_spec_bytes(s);
    }
    let bytes = s.as_bytes();
    let n: usize = bytes.len();
    let mut i: usize = 0;
    while i < n
        invariant
            i <= n,
            n == s@.len(),
            bytes@.len() == n,
            is_ascii_chars(s@),
            forall|k: int| 0 <= k < n ==> bytes@[k] == s@[k] as u8,
            forall|k: int| 0 <= k < i ==> is_ascii_alphanumeric(#[trigger] s@[k]),
        decreases n - i,
    {
        if !alphanumeric_byte(bytes[i]) {
            assert(!is_ascii_alphanumeric(s@[i as int]));
            return false;
        }
        assert(is_ascii_alphanumeric(s@[i as int]));
        i = i + 1;
    }
    true
}

/// The number of characters of an all-alphanumeric string, or `None` where
/// some character is not an ASCII letter or digit.
pub fn alphanumeric_len(s: &str) -> (r: Option<usize>)
    ensures
        r is Some <==> all_ascii_alphanumeric(s@),
        r matches Some(n) ==> n == s@.len(),
{
    if !is_alphanumeric_str(s) {
        return None;
    }
    proof {
        assert(is_ascii_chars(s@)) by {
            assert forall|i: int| 0 <= i < s@.len() implies '\0' <= #[trigger] s@[i]
                <= '\u{7f}' by {
                assert(is_ascii_alphanumeric(s@[i]));
            }
        }
        is_ascii_spec_bytes(s);
    }
    Some(s.as_bytes().len())
}

/// `str::eq` compares two string slices by their contents.
#[verifier::external_body]
pub(crate) fn str_eq(a: &str, b: &str) -> (r: bool)
    ensures
        r == (a@ == b@),
{
    a == b
}

/// `str::strip_prefix` returns the text after the prefix where the text
/// starts with it, and `None` where it does not.
#[verifier::external_body]
pub(crate) fn strip_prefix<'a>(s: &'a str, prefix: &str) -> (r: Option<&'a str>)
    ensures
        match r {
            Some(rest) => s@ == prefix@ + rest@,
            None => !prefix@.is_prefix_of(s@),
        },
{
    s.strip_prefix(prefix)
}

/// `str::split_once` splits the text at the first occurrence of the
/// delimiter, which belongs to neither part, and returns `None` where the
/// delimiter does not occur.
#[verifier::external_body]
pub(crate) fn split_once(s: &str, delimiter: char) -> (r: Option<(&str, &str)>)
    ensures
        match r {
            Some(parts) => s@ == parts.0@ + seq![delimiter] + parts.1@ && !parts.0@.contains(
                delimiter,
            ),
            None => !s@.contains(delimiter),
        },
{
    s.split_once(delimiter)
}

/// `String::from_utf8` turns bytes into the string that they encode, and
/// fails where they are not valid UTF-8.
#[verifier::external_body]
pub(crate) fn string_from_utf8(bytes: Vec<u8>) -> (r: Option<String>)
    ensures
        r is Some <==> vstd::utf8::valid_utf8(bytes@),
        r matches Some(s) ==> s@ == vstd::utf8::decode_utf8(bytes@),
{
    String::from_utf8(bytes).ok()
}

/// Spells bytes as text where each is the code of an ASCII letter or
/// digit, and returns `None` where one is not.
pub fn spell_alphanumeric(draws: &Vec<u8>) -> (r: Option<String>)
    ensures
        r is Some <==> all_alphanumeric_bytes(draws@),
        r matches Some(text) ==> text@ == spelled(draws@) && all_ascii_alphanumeric(text@),
{
    let n = draws.len();
    let mut text = String::new();
    let mut i: usize = 0;
    while i < n
        invariant
            i <= n,
            n == draws@.len(),
            text@.len() == i,
            forall|k: int| 0 <= k < i ==> is_alphanumeric_byte(#[trigger] draws@[k]),
            forall|k: int| 0 <= k < i ==> #[trigger] text@[k] == draws@[k] as char,
        decreases n - i,
    {
        let b = draws[i];
        if !alphanumeric_byte(b) {
            return None;
        }
        push_char(&mut text, b as char);
        i = i + 1;
    }
    proof {
        assert(text@ =~= spelled(draws@));
        assert forall|k: int| 0 <= k < text@.len() implies is_ascii_alphanumeric(
            #[trigger] text@[k],
        ) by {
            assert(is_alphanumeric_byte(draws@[k]));
        }
    }
    Some(text)
}

/// `String::push` appends one character to the end of the string.
#[verifier::external_body]
pub(crate) fn push_char(s: &mut String, c: char)
    ensures
        final(s)@ == old(s)@.push(c),
{
    s.push(c)
}

/// The characters with the Unicode property White_Space: the ASCII blanks
/// and line breaks, the no-break and ideographic spaces, and the spaces and
/// separators of the general punctuation block.
pub open spec fn is_whitespace(c: char) -> bool {
    let n = c as u32;
    (0x09 <= n && n <= 0x0d) || n == 0x20 || n == 0x85 || n == 0xa0 || n == 0x1680
        || (0x2000 <= n && n <= 0x200a) || n == 0x2028 || n == 0x2029 || n == 0x202f
        || n == 0x205f || n == 0x3000
}

/// `char::is_whitespace` tells whether the character has the Unicode
/// property White_Space.
#[verifier::external_body]
pub(crate) fn char_is_whitespace(c: char) -> (r: bool)
    ensures
        r == is_whitespace(c),
{
    c.is_whitespace()
}

/// Every character of `s` is whitespace; the empty text counts.
pub open spec fn all_whitespace(s: Seq<char>) -> bool {
    forall|i: int| 0 <= i < s.len() ==> is_whitespace(#[trigger] s[i])
}

/// Tells whether a string is empty or holds nothing but whitespace, which is
/// when trimming it leaves nothing.
pub fn is_blank(s: &str) -> (r: bool)
    ensures
        r == all_whitespace(s@),
{
    let mut blank = true;
    for c in it: s.chars()
        invariant
            it.seq() == s@,
            blank == (forall|k: int| 0 <= k < it.index() ==> is_whitespace(#[trigger] s@[k])),
    {
        if !char_is_whitespace(c) {
            blank = false;
        }
    }
    blank
}

/// The texts of a vector of strings.
pub open spec fn texts(v: Seq<String>) -> Seq<Seq<char>> {
    Seq::new(v.len(), |i: int| v[i]@)
}

} // verus!
