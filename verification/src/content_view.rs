//! The bytes of a buffer in hexadecimal, as the content view shows them for
//! buffers that are small enough.

use vstd::prelude::*;
use vstd::string::{StrSliceExecFns, StringExecFns};

verus! {

/// The largest buffer, in bytes, whose bytes are shown in hexadecimal.
pub const HEX_VIEW_LIMIT: usize = 1024;

/// The digit for `nibble`, in lower case.
pub open spec fn hex_digit(nibble: int) -> char {
    "0123456789abcdef"@[nibble]
}

/// The two digits for `byte`: the high half first.
pub open spec fn hex_pair(byte: u8) -> Seq<char> {
    seq![hex_digit(byte as int / 16), hex_digit(byte as int % 16)]
}

/// The bytes in hexadecimal: two digits for each byte, and one space between
/// one byte and the next.
pub open spec fn hex_text(bytes: Seq<u8>) -> Seq<char>
    decreases bytes.len(),
{
    if bytes.len() == 0 {
        Seq::empty()
    } else if bytes.len() == 1 {
        hex_pair(bytes[0])
    } else {
        hex_text(bytes.drop_last()) + seq![' '] + hex_pair(bytes.last())
    }
}

/// The character at place `at` of the text for `bytes`: places `3 * i` and
/// `3 * i + 1` hold the two digits of byte `i`, place `3 * i + 2` a space.
pub open spec fn hex_char_at(bytes: Seq<u8>, at: int) -> char {
    if at % 3 == 0 {
        hex_digit(bytes[at / 3] as int / 16)
    } else if at % 3 == 1 {
        hex_digit(bytes[at / 3] as int % 16)
    } else {
        ' '
    }
}

/// The text for `n > 0` bytes has `3 * n - 1` characters, and each of them is
/// the digit or the space that its place calls for.
pub proof fn lemma_hex_text_layout(bytes: Seq<u8>)
    ensures
        hex_text(bytes).len() == if bytes.len() == 0 {
            0
        } else {
            3 * bytes.len() - 1
        },
        forall|at: int|
            0 <= at < hex_text(bytes).len() ==> #[trigger] hex_text(bytes)[at] == hex_char_at(
                bytes,
                at,
            ),
    decreases bytes.len(),
{
    if bytes.len() > 1 {
        let front = bytes.drop_last();
        lemma_hex_text_layout(front);
    }
}

/// Whether the bytes of `content` are shown in hexadecimal: a buffer of up to
/// [`HEX_VIEW_LIMIT`] bytes is, a larger one is not.
pub fn is_hex_eligible(content: &[u8]) -> (eligible: bool)
    ensures
        eligible == (content@.len() <= HEX_VIEW_LIMIT),
{
    content.len() <= HEX_VIEW_LIMIT
}

/// Appends the two digits for `byte` to `text`.
fn push_hex_pair(text: &mut String, byte: u8)
    ensures
        final(text)@ == old(text)@ + hex_pair(byte),
{
    let digits = "0123456789abcdef";
    proof {
        reveal_strlit("0123456789abcdef");
    }
    let high: usize = (byte / 16) as usize;
    let low: usize = (byte % 16) as usize;
    text.append(digits.substring_ascii(high, high + 1));
    text.append(digits.substring_ascii(low, low + 1));
}

/// The bytes of `content` in hexadecimal: two lower-case digits for each
/// byte, and one space between one byte and the next.
pub fn hex_dump(content: &[u8]) -> (text: String)
    ensures
        text@ == hex_text(content@),
{
    let mut text = String::new();
    let mut at: usize = 0;
    while at < content.len()
        invariant
            at <= content.len(),
            text@ == hex_text(content@.take(at as int)),
        decreases content.len() - at,
    {
        proof {
            reveal_strlit(" ");
            assert(content@.take(at + 1).drop_last() =~= content@.take(at as int));
        }
        if at > 0 {
            text.append(" ");
        }
        push_hex_pair(&mut text, content[at]);
        at += 1;
    }
    assert(content@.take(content@.len() as int) =~= content@);
    text
}

} // verus!
