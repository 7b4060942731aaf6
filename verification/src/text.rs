//! Text in a byte buffer: decoding it as UTF-8, the classes of characters
//! that the heuristics look at, and the test for printable text.

use vstd::prelude::*;
use vstd::std_specs::iter::IteratorSpec;
use vstd::string::StringSliceAdditionalSpecFns;
use vstd::utf8::{
    decode_utf8, encode_utf8, encode_utf8_decode_utf8, encode_utf8_valid_utf8, is_ascii_chars,
    is_ascii_chars_encode_utf8, valid_utf8,
};

verus! {

/// Whether `c` is an ASCII character.
pub open spec fn is_ascii_char(c: char) -> bool {
    c as u32 <= 0x7F
}

/// Whether `c` is a control character (general category `Cc`).
pub open spec fn is_control_char(c: char) -> bool {
    c as u32 <= 0x1F || 0x7F <= c as u32 <= 0x9F
}

/// Whether `c` is white space (Unicode property `White_Space`).
pub open spec fn is_whitespace_char(c: char) -> bool {
    let code = c as u32;
    ||| 0x09 <= code <= 0x0D
    ||| code == 0x20
    ||| code == 0x85
    ||| code == 0xA0
    ||| code == 0x1680
    ||| 0x2000 <= code <= 0x200A
    ||| code == 0x2028
    ||| code == 0x2029
    ||| code == 0x202F
    ||| code == 0x205F
    ||| code == 0x3000
}

/// Whether `c` may stand in printable text: an ASCII character that is no
/// control character, or white space.
pub open spec fn is_text_char(c: char) -> bool {
    (is_ascii_char(c) && !is_control_char(c)) || is_whitespace_char(c)
}

/// Whether every character of `text` may stand in printable text.
pub open spec fn all_text_chars(text: Seq<char>) -> bool {
    forall|i: int| 0 <= i < text.len() ==> is_text_char(#[trigger] text[i])
}

/// Whether `bytes` are printable text: valid UTF-8 whose characters may all
/// stand in printable text. The empty buffer is.
pub open spec fn is_text(bytes: Seq<u8>) -> bool {
    valid_utf8(bytes) && all_text_chars(decode_utf8(bytes))
}

/// The characters whose codes are the bytes of an ASCII buffer.
pub open spec fn ascii_chars(bytes: Seq<u8>) -> Seq<char> {
    Seq::new(bytes.len(), |i: int| bytes[i] as char)
}

/// A buffer of ASCII bytes is valid UTF-8 and holds one character for each
/// byte. It is printable text exactly if each byte is a printable ASCII
/// character (`0x20` to `0x7E`) or ASCII white space (`0x09` to `0x0D`).
pub proof fn lemma_ascii_buffer_is_text_by_its_bytes(bytes: Seq<u8>)
    requires
        forall|i: int| 0 <= i < bytes.len() ==> bytes[i] <= 0x7F,
    ensures
        valid_utf8(bytes),
        decode_utf8(bytes) == ascii_chars(bytes),
        is_text(bytes) <==> forall|i: int|
            0 <= i < bytes.len() ==> 0x20 <= #[trigger] bytes[i] <= 0x7E || 0x09 <= bytes[i]
                <= 0x0D,
{
    let chars = ascii_chars(bytes);
    is_ascii_chars_encode_utf8(chars);
    assert(encode_utf8(chars) =~= bytes);
    encode_utf8_valid_utf8(chars);
    encode_utf8_decode_utf8(chars);
    if is_text(bytes) {
        assert forall|i: int| 0 <= i < bytes.len() implies 0x20 <= #[trigger] bytes[i] <= 0x7E
            || 0x09 <= bytes[i] <= 0x0D by {
        }
    }
    if forall|i: int|
        0 <= i < bytes.len() ==> 0x20 <= #[trigger] bytes[i] <= 0x7E || 0x09 <= bytes[i] <= 0x0D {
        assert forall|i: int| 0 <= i < chars.len() implies is_text_char(#[trigger] chars[i]) by {
        }
    }
}

/// Whether `c` is white space.
pub fn is_whitespace(c: char) -> (white: bool)
    ensures
        white == is_whitespace_char(c),
{
    let code: u32 = c as u32;
    (0x09 <= code && code <= 0x0D) || code == 0x20 || code == 0x85 || code == 0xA0 || code
        == 0x1680 || (0x2000 <= code && code <= 0x200A) || code == 0x2028 || code == 0x2029
        || code == 0x202F || code == 0x205F || code == 0x3000
}

/// Whether `c` may stand in printable text.
pub fn is_printable(c: char) -> (printable: bool)
    ensures
        printable == is_text_char(c),
{
    let code: u32 = c as u32;
    (0x20 <= code && code <= 0x7E) || is_whitespace(c)
}

/// Calls `core::str::from_utf8`. Taken on trust from its documentation, not
/// proved: it succeeds exactly on valid UTF-8, and the string slice that it
/// hands back holds the bytes that it was given.
#[verifier::external_body]
fn text_of(bytes: &[u8]) -> (text: Option<&str>)
    ensures
        text is Some <==> valid_utf8(bytes@),
        text matches Some(slice) ==> slice.spec_bytes() == bytes@,
{
    core::str::from_utf8(bytes).ok()
}

/// The characters that `bytes` encode, where they are valid UTF-8.
pub(crate) fn decoded(bytes: &[u8]) -> (text: Option<&str>)
    ensures
        text is Some <==> valid_utf8(bytes@),
        text matches Some(slice) ==> slice@ == decode_utf8(bytes@),
{
    let text = text_of(bytes);
    proof {
        if let Some(slice) = text {
            encode_utf8_decode_utf8(slice@);
        }
    }
    text
}

/// Whether every character of `text` may stand in printable text. Stops at
/// the first character that may not.
fn all_printable(text: &str) -> (all: bool)
    ensures
        all == all_text_chars(text@),
{
    let mut chars = text.chars();
    let ghost mut seen: int = 0;
    loop
        invariant
            0 <= seen <= text@.len(),
            chars.remaining() == text@.skip(seen),
            all_text_chars(text@.take(seen)),
        decreases text@.len() - seen,
    {
        match chars.next() {
            None => {
                assert(text@.take(seen) =~= text@);
                return true;
            },
            Some(c) => {
                if !is_printable(c) {
                    return false;
                }
                proof {
                    seen = seen + 1;
                }
            },
        }
    }
}

/// The text of `content`, where `content` is printable text: it decodes as
/// UTF-8, and every character is an ASCII character that is no control
/// character, or white space.
pub fn printable_text(content: &[u8]) -> (text: Option<&str>)
    ensures
        text is Some <==> is_text(content@),
        text matches Some(slice) ==> slice@ == decode_utf8(content@),
{
    match decoded(content) {
        None => None,
        Some(text) => if all_printable(text) {
            Some(text)
        } else {
            None
        },
    }
}

/// Whether `content` is printable text: it decodes as UTF-8, and every
/// character is an ASCII character that is no control character, or white
/// space. The empty buffer is printable text.
pub fn looks_like_text(content: &[u8]) -> (printable: bool)
    ensures
        printable == is_text(content@),
        printable ==> valid_utf8(content@) && forall|i: int|
            0 <= i < decode_utf8(content@).len() ==> is_text_char(
                #[trigger] decode_utf8(content@)[i],
            ),
{
    printable_text(content).is_some()
}

/// `text` without its leading white space.
pub open spec fn trim_start(text: Seq<char>) -> Seq<char>
    decreases text.len(),
{
    if text.len() > 0 && is_whitespace_char(text[0]) {
        trim_start(text.drop_first())
    } else {
        text
    }
}

/// The characters of `text`, one by one.
pub(crate) fn chars_of(text: &str) -> (chars: Vec<char>)
    ensures
        chars@ == text@,
{
    let mut chars: Vec<char> = Vec::new();
    for c in it: text.chars()
        invariant
            it.seq() == text@,
            chars@ == text@.take(it.index()),
    {
        chars.push(c);
    }
    chars
}

/// How many characters of white space `chars` begin with.
pub(crate) fn leading_whitespace(chars: &Vec<char>) -> (count: usize)
    ensures
        count <= chars.len(),
        chars@.skip(count as int) == trim_start(chars@),
{
    let mut count: usize = 0;
    assert(chars@.skip(0) =~= chars@);
    while count < chars.len() && is_whitespace(chars[count])
        invariant
            count <= chars.len(),
            trim_start(chars@.skip(count as int)) == trim_start(chars@),
        decreases chars.len() - count,
    {
        proof {
            assert(chars@.skip(count as int).drop_first() =~= chars@.skip(count + 1));
        }
        count += 1;
    }
    count
}

/// Whether `needle` occurs in `chars`.
pub(crate) fn contains_char(chars: &Vec<char>, needle: char) -> (found: bool)
    ensures
        found == chars@.contains(needle),
{
    let mut at: usize = 0;
    while at < chars.len()
        invariant
            at <= chars.len(),
            forall|i: int| 0 <= i < at ==> chars@[i] != needle,
        decreases chars.len() - at,
    {
        if chars[at] == needle {
            return true;
        }
        at += 1;
    }
    false
}

} // verus!
