//! Fitting text into a column of a fixed width.

use vstd::prelude::*;
use vstd::string::*;
use vstd::utf8::*;

verus! {

/// The text can be cut for a column of `max_chars` bytes: it fits as it is,
/// or the column has room for the three dots and the cut, three bytes before
/// the column's end, does not fall inside a character.
pub open spec fn can_truncate(text: Seq<char>, max_chars: int) -> bool {
    let bytes = encode_utf8(text);
    bytes.len() > max_chars ==> 3 <= max_chars && is_char_boundary(bytes, max_chars - 3)
}

/// The text as it is where its UTF-8 form has at most `max_chars` bytes; else
/// the characters of its first `max_chars - 3` bytes, and three dots.
pub open spec fn truncated(text: Seq<char>, max_chars: int) -> Seq<char> {
    let bytes = encode_utf8(text);
    if bytes.len() <= max_chars {
        text
    } else {
        decode_utf8(bytes.subrange(0, max_chars - 3)) + seq!['.', '.', '.']
    }
}

/// Whether `s` can be cut for a column of `max_chars` bytes: what `truncate`
/// asks of its arguments.
pub fn can_be_truncated(s: &str, max_chars: usize) -> (fits: bool)
    ensures
        fits == can_truncate(s@, max_chars as int),
{
    s.as_bytes().len() <= max_chars || (max_chars >= 3 && s.is_char_boundary(max_chars - 3))
}

/// Shortens `s` to at most `max_chars` bytes, marking a cut with `...`.
///
/// Lengths are counted in bytes of UTF-8, as `str::len` counts them.
pub fn truncate(s: &str, max_chars: usize) -> (out: String)
    requires
        can_truncate(s@, max_chars as int),
    ensures
        out@ == truncated(s@, max_chars as int),
{
    if s.as_bytes().len() <= max_chars {
        s.to_owned()
    } else {
        let (head, _) = s.split_at(max_chars - 3);
        let mut out = head.to_owned();
        out.append("...");
        proof {
            reveal_strlit("...");
            encode_utf8_decode_utf8(head@);
            assert("..."@ =~= seq!['.', '.', '.']);
        }
        out
    }
}

/// A text of ASCII characters is cut after `max_chars - 3` characters, and
/// what `truncate` then returns is `max_chars` characters long.
pub proof fn lemma_truncated_ascii(text: Seq<char>, max_chars: int)
    requires
        is_ascii_chars(text),
        3 <= max_chars < text.len(),
    ensures
        can_truncate(text, max_chars),
        truncated(text, max_chars) == text.subrange(0, max_chars - 3) + seq!['.', '.', '.'],
        truncated(text, max_chars).len() == max_chars,
{
    let bytes = encode_utf8(text);
    let cut = max_chars - 3;
    let head = text.subrange(0, cut);
    let tail = text.subrange(cut, text.len() as int);
    is_ascii_chars_encode_utf8(text);
    assert(text =~= head + tail);
    is_ascii_chars_concat(text, head, tail);
    is_ascii_chars_encode_utf8(head);
    assert(encode_utf8(head) =~= bytes.subrange(0, cut));
    encode_utf8_decode_utf8(head);
    encode_utf8_valid_utf8(text);
    is_char_boundary_iff_is_leading_byte(bytes, cut);
}

} // verus!
