//! Characters as the layout code sees them: how many bytes one takes in the
//! UTF-8 buffer, how many terminal cells it fills, and whether a row may break
//! after it.

use unicode_width::UnicodeWidthChar;
use unicode_width::UnicodeWidthStr;
use vstd::prelude::*;
use vstd::std_specs::iter::IteratorSpec;
use vstd::string::*;
use vstd::utf8::*;

verus! {

/// Number of bytes of the UTF-8 encoding of `c`.
pub open spec fn char_len(c: char) -> nat {
    encode_scalar(c as u32).len()
}

/// Number of bytes of the UTF-8 encoding of `s`.
pub open spec fn byte_len(s: Seq<char>) -> nat {
    encode_utf8(s).len()
}

/// Byte offset at which the character with index `k` starts in `s`
/// (the length of `s` in bytes for `k == s.len()`).
pub open spec fn byte_offset(s: Seq<char>, k: int) -> nat {
    byte_len(s.take(k))
}

/// What the width table says of `c`: `None` for a control character, else
/// the number of columns.
pub uninterp spec fn char_columns(c: char) -> Option<usize>;

/// What the width table says of a whole string, ligatures and emoji
/// sequences taken into account.
pub uninterp spec fn str_columns(s: Seq<char>) -> usize;

/// `c` has the Unicode property `White_Space`.
pub uninterp spec fn is_space(c: char) -> bool;

/// Cells that the layout reserves for `c`: the table's width, but never less
/// than one, so that every character makes progress.
pub open spec fn cell_width(c: char) -> nat {
    match char_columns(c) {
        Some(n) => if n >= 1 { n as nat } else { 1 },
        None => 1,
    }
}

/// Total of `cell_width` over `s`.
pub open spec fn cells(s: Seq<char>) -> nat
    decreases s.len(),
{
    if s.len() == 0 {
        0
    } else {
        cells(s.drop_last()) + cell_width(s.last())
    }
}

/// A row may break after `c`: white space, or one of the two delimiters of
/// mentions and paths.
pub open spec fn is_break_char(c: char) -> bool {
    is_space(c) || c == '@' || c == '/'
}

/// `char::is_whitespace` of std: true exactly for the characters with the
/// `White_Space` property, which `is_space` names.
pub assume_specification[ char::is_whitespace ](c: char) -> (b: bool)
    ensures
        b == is_space(c),
;

/// `UnicodeWidthChar::width` of unicode-width. The result is the table's
/// entry, named `char_columns`. The table's entries are bytes, and the
/// printable ASCII characters are one column wide.
#[verifier::external_body]
pub(crate) fn table_width(c: char) -> (w: Option<usize>)
    ensures
        w == char_columns(c),
        w matches Some(n) ==> n <= 255,
        (0x20 <= (c as u32) && (c as u32) < 0x7F) ==> w == Some(1usize),
{
    UnicodeWidthChar::width(c)
}

/// `UnicodeWidthStr::width` of unicode-width, whose result `str_columns`
/// names.
#[verifier::external_body]
pub(crate) fn table_str_width(s: &str) -> (w: usize)
    ensures
        w == str_columns(s@),
{
    UnicodeWidthStr::width(s)
}

/// The encoding of a sequence with one more character is the encoding of the
/// sequence followed by that of the character.
pub proof fn lemma_encode_push(s: Seq<char>, c: char)
    ensures
        encode_utf8(s.push(c)) == encode_utf8(s) + encode_scalar(c as u32),
    decreases s.len(),
{
    if s.len() == 0 {
        assert(s.push(c).drop_first() =~= Seq::<char>::empty());
        assert(encode_utf8(s.push(c)) =~= encode_scalar(c as u32) + encode_utf8(
            Seq::<char>::empty(),
        ));
        assert(encode_utf8(s) + encode_scalar(c as u32) =~= encode_scalar(c as u32));
    } else {
        lemma_encode_push(s.drop_first(), c);
        assert(s.push(c).drop_first() =~= s.drop_first().push(c));
        assert(encode_utf8(s.push(c)) =~= encode_utf8(s) + encode_scalar(c as u32));
    }
}

/// A character takes between one and four bytes, by its code point.
pub proof fn lemma_char_len(c: char)
    ensures
        1 <= char_len(c) <= 4,
        char_len(c) == if (c as u32) < 0x80 {
            1nat
        } else if (c as u32) < 0x800 {
            2nat
        } else if (c as u32) < 0x10000 {
            3nat
        } else {
            4nat
        },
{
    char_is_scalar(c);
}

/// One more character adds its own length to the byte length.
pub proof fn lemma_byte_len_push(s: Seq<char>, c: char)
    ensures
        byte_len(s.push(c)) == byte_len(s) + char_len(c),
{
    lemma_encode_push(s, c);
}

/// The bytes of two sequences, one behind the other, are the bytes of
/// both.
pub proof fn lemma_byte_len_concat(a: Seq<char>, b: Seq<char>)
    ensures
        byte_len(a + b) == byte_len(a) + byte_len(b),
    decreases b.len(),
{
    if b.len() == 0 {
        assert(a + b =~= a);
        assert(encode_utf8(b) =~= Seq::<u8>::empty());
    } else {
        lemma_byte_len_concat(a, b.drop_last());
        assert(a + b =~= (a + b.drop_last()).push(b.last()));
        assert(b =~= b.drop_last().push(b.last()));
        lemma_byte_len_push(a + b.drop_last(), b.last());
        lemma_byte_len_push(b.drop_last(), b.last());
    }
}

/// The offset of the next character is the offset of this one plus its
/// length.
pub proof fn lemma_byte_offset_step(s: Seq<char>, k: int)
    requires
        0 <= k < s.len(),
    ensures
        byte_offset(s, k + 1) == byte_offset(s, k) + char_len(s[k]),
        byte_offset(s, k + 1) > byte_offset(s, k),
{
    assert(s.take(k + 1) =~= s.take(k).push(s[k]));
    lemma_byte_len_push(s.take(k), s[k]);
    lemma_char_len(s[k]);
}

/// Offsets grow with the character index.
pub proof fn lemma_byte_offset_mono(s: Seq<char>, i: int, j: int)
    requires
        0 <= i <= j <= s.len(),
    ensures
        byte_offset(s, i) <= byte_offset(s, j),
        i < j ==> byte_offset(s, i) < byte_offset(s, j),
        byte_offset(s, j) - byte_offset(s, i) >= j - i,
    decreases j - i,
{
    if i < j {
        lemma_byte_offset_mono(s, i, j - 1);
        lemma_byte_offset_step(s, j - 1);
    }
}

/// The two ends of a sequence are at offset zero and at its byte length.
pub proof fn lemma_byte_offset_ends(s: Seq<char>)
    ensures
        byte_offset(s, 0) == 0,
        byte_offset(s, s.len() as int) == byte_len(s),
{
    assert(s.take(0) =~= Seq::<char>::empty());
    assert(s.take(s.len() as int) =~= s);
}

/// Cells of a sequence with one more character.
pub proof fn lemma_cells_push(s: Seq<char>, c: char)
    ensures
        cells(s.push(c)) == cells(s) + cell_width(c),
        cell_width(c) >= 1,
{
    assert(s.push(c).drop_last() =~= s);
}

/// Number of bytes this character needs in UTF-8.
pub fn char_len_utf8(c: char) -> (n: usize)
    ensures
        n == char_len(c),
        1 <= n <= 4,
{
    proof {
        lemma_char_len(c);
    }
    let u: u32 = c as u32;
    if u < 0x80 {
        1
    } else if u < 0x800 {
        2
    } else if u < 0x10000 {
        3
    } else {
        4
    }
}

/// Cells reserved for `c`: the table's width, floored at one.
pub fn char_cells(c: char) -> (w: usize)
    ensures
        w == cell_width(c),
        1 <= w <= 255,
{
    match table_width(c) {
        Some(n) => if n >= 1 {
            n
        } else {
            1
        },
        None => 1,
    }
}

/// Whether a row may break after `c`.
pub fn breaks_after(c: char) -> (b: bool)
    ensures
        b == is_break_char(c),
{
    c.is_whitespace() || c == '@' || c == '/'
}

/// The characters of `text`, in order.
pub fn chars_of(text: &str) -> (chars: Vec<char>)
    ensures
        chars@ == text@,
{
    let mut chars: Vec<char> = Vec::new();
    for c in it: text.chars()
        invariant
            it.seq() == text@,
            chars@ == it.seq().take(it.index() as int),
    {
        chars.push(c);
    }
    chars
}

} // verus!
