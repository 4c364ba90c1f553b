//! Wrapping a text buffer into visual rows, and mapping between cursor
//! positions and byte offsets.
//!
//! A buffer is a sequence of characters; offsets are byte offsets into its
//! UTF-8 encoding. Rows are half-open byte ranges `(start, end)`.

use crate::primitives::chars::{
    breaks_after, byte_len, byte_offset, cell_width, cells, char_cells, char_len_utf8,
    chars_of, is_break_char, is_space, lemma_byte_len_concat, lemma_byte_len_push,
    lemma_byte_offset_ends, lemma_byte_offset_mono, lemma_byte_offset_step, lemma_cells_push,
    lemma_char_len,
};
use crate::primitives::strings::{joined, views_of};
use vstd::prelude::*;
use vstd::string::*;
use vstd::utf8::encode_utf8;

verus! {

/// Column budget of a row: a width of zero is treated as one.
pub open spec fn budget(content_width: u16) -> nat {
    if content_width == 0 {
        1
    } else {
        content_width as nat
    }
}

/// Index of the first character at or after `j` at which the row that starts
/// at `s` stops growing: the end of the text, a newline, or a character that
/// would take the row over `width` although the row already has content.
pub open spec fn row_stop(text: Seq<char>, width: nat, s: int, j: int) -> int
    decreases text.len() - j,
{
    if j >= text.len() {
        text.len() as int
    } else if text[j] == '\n' {
        j
    } else if j > s && cells(text.subrange(s, j)) + cell_width(text[j]) > width {
        j
    } else {
        row_stop(text, width, s, j + 1)
    }
}

/// Position just after the last break character among `text[s..j]`, or `s`
/// where there is none.
pub open spec fn last_break(text: Seq<char>, s: int, j: int) -> int
    decreases j - s,
{
    if j <= s {
        s
    } else if is_break_char(text[j - 1]) {
        j
    } else {
        last_break(text, s, j - 1)
    }
}

/// The row that starts at character `s` runs to the end of the text.
pub open spec fn is_last_row(text: Seq<char>, width: nat, s: int) -> bool {
    row_stop(text, width, s, s) >= text.len()
}

/// Character index at which the row that starts at `s` ends. A newline ends
/// the row where it stands. A character that does not fit ends the row after
/// the last break character of the row, or just before itself where the row
/// has none.
pub open spec fn row_end(text: Seq<char>, width: nat, s: int) -> int {
    let stop = row_stop(text, width, s, s);
    if stop >= text.len() || text[stop] == '\n' {
        stop
    } else if last_break(text, s, stop) > s {
        last_break(text, s, stop)
    } else {
        stop
    }
}

/// Character index at which the row after the one that starts at `s`
/// begins. A newline, or white space at which the row broke, is consumed:
/// it belongs to neither row.
pub open spec fn row_next(text: Seq<char>, width: nat, s: int) -> int {
    let stop = row_stop(text, width, s, s);
    let end = row_end(text, width, s);
    if stop < text.len() && end == stop && (text[stop] == '\n' || is_space(text[stop])) {
        stop + 1
    } else {
        end
    }
}

/// The rows of `text[s..]`, as pairs of character indices.
pub open spec fn rows_from(text: Seq<char>, width: nat, s: int) -> Seq<(int, int)>
    decreases text.len() - s,
    when 0 <= s <= text.len()
{
    if is_last_row(text, width, s) {
        seq![(s, text.len() as int)]
    } else {
        proof {
            lemma_row_next(text, width, s);
        }
        seq![(s, row_end(text, width, s))] + rows_from(text, width, row_next(text, width, s))
    }
}

/// Rows given by character indices, as byte ranges.
pub open spec fn to_bytes(text: Seq<char>, rows: Seq<(int, int)>) -> Seq<(int, int)> {
    Seq::new(
        rows.len(),
        |i: int| (byte_offset(text, rows[i].0) as int, byte_offset(text, rows[i].1) as int),
    )
}

/// The visual rows of `text` for a content width, as byte ranges.
pub open spec fn wrapped_rows(text: Seq<char>, content_width: u16) -> Seq<(int, int)> {
    to_bytes(text, rows_from(text, budget(content_width), 0))
}

/// Rows as they are handed out, read as pairs of integers.
pub open spec fn spans(rows: Seq<(usize, usize)>) -> Seq<(int, int)> {
    Seq::new(rows.len(), |i: int| (rows[i].0 as int, rows[i].1 as int))
}

/// Rows in order over a buffer of `len` units: the first starts at zero, the
/// last ends at `len`, none ends before it starts, none starts before the one
/// before it has ended.
pub open spec fn ordered_rows(rows: Seq<(int, int)>, len: int) -> bool {
    &&& rows.len() >= 1
    &&& rows[0].0 == 0
    &&& rows.last().1 == len
    &&& forall|i: int| 0 <= i < rows.len() ==> 0 <= (#[trigger] rows[i]).0 <= rows[i].1 <= len
    &&& forall|i: int| 0 <= i < rows.len() - 1 ==> (#[trigger] rows[i]).1 <= rows[i + 1].0
}

/// Between offsets `a` and `b` lies nothing, or exactly one character of
/// `text`, which is a newline or white space.
pub open spec fn separator_between(text: Seq<char>, a: int, b: int) -> bool {
    a == b || exists|k: int|
        0 <= k < text.len() && #[trigger] byte_offset(text, k) == a && byte_offset(text, k + 1)
            == b && (text[k] == '\n' || is_space(text[k]))
}

/// Where the row that starts at `s` stops growing, and why.
pub proof fn lemma_row_stop(text: Seq<char>, width: nat, s: int, j: int)
    requires
        0 <= s <= j <= text.len(),
    ensures
        j <= row_stop(text, width, s, j) <= text.len(),
        ({
            let stop = row_stop(text, width, s, j);
            stop < text.len() ==> (text[stop] == '\n' || (stop > s && cells(
                text.subrange(s, stop),
            ) + cell_width(text[stop]) > width))
        }),
    decreases text.len() - j,
{
    if j < text.len() && text[j] != '\n' && !(j > s && cells(text.subrange(s, j)) + cell_width(
        text[j],
    ) > width) {
        lemma_row_stop(text, width, s, j + 1);
    }
}

/// The last break position lies in the row, and a break character stands
/// before it.
pub proof fn lemma_last_break(text: Seq<char>, s: int, j: int)
    requires
        0 <= s <= j <= text.len(),
    ensures
        s <= last_break(text, s, j) <= j,
        last_break(text, s, j) > s ==> is_break_char(text[last_break(text, s, j) - 1]),
    decreases j - s,
{
    if j > s && !is_break_char(text[j - 1]) {
        lemma_last_break(text, s, j - 1);
    }
}

/// A row that is not the last ends inside the text, and the next row starts
/// after this row's start: wrapping makes progress.
pub proof fn lemma_row_next(text: Seq<char>, width: nat, s: int)
    requires
        0 <= s <= text.len(),
        !is_last_row(text, width, s),
    ensures
        s <= row_end(text, width, s) <= row_next(text, width, s) <= text.len(),
        s < row_next(text, width, s),
        row_next(text, width, s) <= row_end(text, width, s) + 1,
        row_next(text, width, s) == row_end(text, width, s) + 1 ==> (text[row_end(text, width, s)]
            == '\n' || is_space(text[row_end(text, width, s)])),
{
    lemma_row_stop(text, width, s, s);
    lemma_last_break(text, s, row_stop(text, width, s, s));
}

/// The rows of `text[s..]` are in order: they start at `s`, end at the end
/// of the text, and between two of them lies nothing or one consumed newline
/// or white space character.
pub proof fn lemma_rows_from(text: Seq<char>, width: nat, s: int)
    requires
        0 <= s <= text.len(),
    ensures
        ({
            let rows = rows_from(text, width, s);
            &&& rows.len() >= 1
            &&& rows[0].0 == s
            &&& rows.last().1 == text.len()
            &&& forall|i: int|
                0 <= i < rows.len() ==> s <= (#[trigger] rows[i]).0 <= rows[i].1 <= text.len()
            &&& forall|i: int|
                0 <= i < rows.len() - 1 ==> (#[trigger] rows[i]).1 <= rows[i + 1].0
                    <= rows[i].1 + 1
            &&& forall|i: int|
                0 <= i < rows.len() - 1 && (#[trigger] rows[i]).1 < rows[i + 1].0 ==> (
                text[rows[i].1] == '\n' || is_space(text[rows[i].1]))
        }),
    decreases text.len() - s,
{
    if !is_last_row(text, width, s) {
        lemma_row_next(text, width, s);
        let next = row_next(text, width, s);
        lemma_rows_from(text, width, next);
        let head = seq![(s, row_end(text, width, s))];
        let tail = rows_from(text, width, next);
        let rows = rows_from(text, width, s);
        assert(rows == head + tail);
        assert forall|i: int| 0 <= i < rows.len() implies s <= (#[trigger] rows[i]).0
            <= rows[i].1 <= text.len() by {
            if i > 0 {
                assert(rows[i] == tail[i - 1]);
            }
        }
        assert forall|i: int| 0 <= i < rows.len() - 1 implies (#[trigger] rows[i]).1 <= rows[i
            + 1].0 <= rows[i].1 + 1 && (rows[i].1 < rows[i + 1].0 ==> (text[rows[i].1] == '\n'
            || is_space(text[rows[i].1]))) by {
            assert(rows[i + 1] == tail[i]);
            if i > 0 {
                assert(rows[i] == tail[i - 1]);
            }
        }
        assert(rows.last() == tail.last());
    }
}

/// A row fits: its characters take no more cells than the width, or it
/// is a single character, which gets a row however wide it is.
pub open spec fn row_fits(text: Seq<char>, width: nat, row: (int, int)) -> bool {
    cells(text.subrange(row.0, row.1)) <= width || row.1 <= row.0 + 1
}

/// A run of characters takes no fewer cells than a shorter run from the
/// same start.
pub proof fn lemma_cells_mono(text: Seq<char>, s: int, e: int, f: int)
    requires
        0 <= s <= e <= f <= text.len(),
    ensures
        cells(text.subrange(s, e)) <= cells(text.subrange(s, f)),
    decreases f - e,
{
    if e < f {
        lemma_cells_mono(text, s, e, f - 1);
        assert(text.subrange(s, f) =~= text.subrange(s, f - 1).push(text[f - 1]));
        lemma_cells_push(text.subrange(s, f - 1), text[f - 1]);
    }
}

/// Where a row stops growing, what it holds fits.
pub proof fn lemma_stop_fits(text: Seq<char>, width: nat, s: int, j: int)
    requires
        0 <= s <= j <= text.len(),
        row_fits(text, width, (s, j)),
    ensures
        row_fits(text, width, (s, row_stop(text, width, s, j))),
    decreases text.len() - j,
{
    if j < text.len() && text[j] != '\n' && !(j > s && cells(text.subrange(s, j)) + cell_width(
        text[j],
    ) > width) {
        assert(text.subrange(s, j + 1) =~= text.subrange(s, j).push(text[j]));
        lemma_cells_push(text.subrange(s, j), text[j]);
        lemma_stop_fits(text, width, s, j + 1);
    }
}

/// The rows of `text[s..]` fit.
pub proof fn lemma_rows_fit_from(text: Seq<char>, width: nat, s: int)
    requires
        0 <= s <= text.len(),
    ensures
        forall|i: int|
            0 <= i < rows_from(text, width, s).len() ==> row_fits(
                text,
                width,
                #[trigger] rows_from(text, width, s)[i],
            ),
    decreases text.len() - s,
{
    let stop = row_stop(text, width, s, s);
    assert(text.subrange(s, s) =~= Seq::<char>::empty());
    lemma_stop_fits(text, width, s, s);
    lemma_row_stop(text, width, s, s);
    if is_last_row(text, width, s) {
        assert(stop == text.len());
    } else {
        lemma_row_next(text, width, s);
        lemma_last_break(text, s, stop);
        let end = row_end(text, width, s);
        lemma_cells_mono(text, s, end, stop);
        let next = row_next(text, width, s);
        lemma_rows_fit_from(text, width, next);
        let rows = rows_from(text, width, s);
        let tail = rows_from(text, width, next);
        assert forall|i: int| 0 <= i < rows.len() implies row_fits(text, width, #[trigger] rows[i]) by {
            if i > 0 {
                assert(rows[i] == tail[i - 1]);
            }
        }
    }
}

/// **Rows fit.** Every row of a wrap takes no more cells than the width
/// (one cell for a width of zero), but for a row of a single character
/// that is wider than the width.
pub proof fn lemma_rows_fit(text: Seq<char>, content_width: u16)
    ensures
        forall|i: int|
            0 <= i < rows_from(text, budget(content_width), 0).len() ==> row_fits(
                text,
                budget(content_width),
                #[trigger] rows_from(text, budget(content_width), 0)[i],
            ),
{
    lemma_rows_fit_from(text, budget(content_width), 0);
}

/// **Partition.** The rows of a wrap are in order over the bytes of the
/// text: there is at least one, the first starts at zero, the last ends at
/// the length of the text, and no two overlap. Two neighbours touch, except
/// where the wrap consumed one character between them, which is then a
/// newline or white space.
pub proof fn lemma_wrap_partition(text: Seq<char>, content_width: u16)
    ensures
        ordered_rows(wrapped_rows(text, content_width), byte_len(text) as int),
        forall|i: int|
            0 <= i < wrapped_rows(text, content_width).len() - 1 ==> separator_between(
                text,
                (#[trigger] wrapped_rows(text, content_width)[i]).1,
                wrapped_rows(text, content_width)[i + 1].0,
            ),
{
    let width = budget(content_width);
    let rows = rows_from(text, width, 0);
    let bytes = wrapped_rows(text, content_width);
    lemma_rows_from(text, width, 0);
    lemma_byte_offset_ends(text);
    assert forall|i: int| 0 <= i < bytes.len() implies 0 <= (#[trigger] bytes[i]).0
        <= bytes[i].1 <= byte_len(text) by {
        lemma_byte_offset_mono(text, rows[i].0, rows[i].1);
        lemma_byte_offset_mono(text, rows[i].1, text.len() as int);
    }
    assert forall|i: int| 0 <= i < bytes.len() - 1 implies (#[trigger] bytes[i]).1 <= bytes[i
        + 1].0 && separator_between(text, bytes[i].1, bytes[i + 1].0) by {
        lemma_byte_offset_mono(text, rows[i].1, rows[i + 1].0);
        if rows[i].1 < rows[i + 1].0 {
            let k = rows[i].1;
            assert(byte_offset(text, k) == bytes[i].1);
            assert(byte_offset(text, k + 1) == bytes[i + 1].0);
        }
    }
}

/// **Partition, without separators.** Where the text holds neither a newline
/// nor white space, the rows of a wrap are contiguous: each starts where the
/// one before it ends, so that together they are exactly the bytes of the
/// text.
pub proof fn lemma_wrap_contiguous(text: Seq<char>, content_width: u16)
    requires
        forall|k: int| 0 <= k < text.len() ==> text[k] != '\n' && !is_space(#[trigger] text[k]),
    ensures
        ordered_rows(wrapped_rows(text, content_width), byte_len(text) as int),
        forall|i: int|
            0 <= i < wrapped_rows(text, content_width).len() - 1 ==> (#[trigger] wrapped_rows(
                text,
                content_width,
            )[i]).1 == wrapped_rows(text, content_width)[i + 1].0,
{
    let rows = rows_from(text, budget(content_width), 0);
    let bytes = wrapped_rows(text, content_width);
    lemma_wrap_partition(text, content_width);
    lemma_rows_from(text, budget(content_width), 0);
    assert forall|i: int| 0 <= i < bytes.len() - 1 implies (#[trigger] bytes[i]).1 == bytes[i
        + 1].0 by {
        if rows[i].1 < rows[i + 1].0 {
            assert(text[rows[i].1] == '\n' || is_space(text[rows[i].1]));
        }
    }
}

/// What one pass over a row finds: where the row stops growing and where its
/// last break position is, each as a character index and as a byte offset.
struct RowScan {
    stop: usize,
    stop_off: usize,
    brk: usize,
    brk_off: usize,
}

/// Scans the row that starts at character `s`.
fn scan_row(chars: &Vec<char>, width: usize, s: usize, s_off: usize) -> (r: RowScan)
    requires
        s <= chars.len(),
        s_off == byte_offset(chars@, s as int),
        byte_len(chars@) <= usize::MAX,
        1 <= width <= u16::MAX,
    ensures
        r.stop == row_stop(chars@, width as nat, s as int, s as int),
        r.stop_off == byte_offset(chars@, r.stop as int),
        r.brk == last_break(chars@, s as int, r.stop as int),
        r.brk_off == byte_offset(chars@, r.brk as int),
        s <= r.brk <= r.stop <= chars.len(),
{
    let n = chars.len();
    let mut j: usize = s;
    let mut j_off: usize = s_off;
    let mut cols: usize = 0;
    let mut brk: usize = s;
    let mut brk_off: usize = s_off;
    proof {
        assert(chars@.subrange(s as int, s as int) =~= Seq::<char>::empty());
    }
    while j < n
        invariant
            n == chars.len(),
            s <= brk <= j <= n,
            byte_len(chars@) <= usize::MAX,
            1 <= width <= u16::MAX,
            row_stop(chars@, width as nat, s as int, s as int) == row_stop(
                chars@,
                width as nat,
                s as int,
                j as int,
            ),
            cols == cells(chars@.subrange(s as int, j as int)),
            cols <= width + 255,
            j_off == byte_offset(chars@, j as int),
            brk == last_break(chars@, s as int, j as int),
            brk_off == byte_offset(chars@, brk as int),
        decreases n - j,
    {
        let c = chars[j];
        if c == '\n' {
            return RowScan { stop: j, stop_off: j_off, brk, brk_off };
        }
        let w = char_cells(c);
        if j > s && (cols >= width || w > width - cols) {
            return RowScan { stop: j, stop_off: j_off, brk, brk_off };
        }
        proof {
            assert(chars@.subrange(s as int, j + 1) =~= chars@.subrange(s as int, j as int).push(
                c,
            ));
            lemma_cells_push(chars@.subrange(s as int, j as int), c);
            lemma_byte_offset_step(chars@, j as int);
            lemma_byte_offset_mono(chars@, j + 1, n as int);
            lemma_byte_offset_ends(chars@);
        }
        cols = cols + w;
        j_off = j_off + char_len_utf8(c);
        j = j + 1;
        if breaks_after(c) {
            brk = j;
            brk_off = j_off;
        }
    }
    RowScan { stop: j, stop_off: j_off, brk, brk_off }
}

/// Wraps `chars` and returns the rows twice: as byte ranges, and as ranges
/// of character indices.
pub fn wrap_chars(chars: &Vec<char>, content_width: u16) -> (r: (
    Vec<(usize, usize)>,
    Vec<(usize, usize)>,
))
    requires
        byte_len(chars@) <= usize::MAX,
    ensures
        spans(r.0@) == wrapped_rows(chars@, content_width),
        spans(r.1@) == rows_from(chars@, budget(content_width), 0),
        r.0@.len() == r.1@.len(),
        r.0@.len() >= 1,
{
    let n = chars.len();
    let width: usize = if content_width == 0 {
        1
    } else {
        content_width as usize
    };
    let mut rows: Vec<(usize, usize)> = Vec::new();
    let mut krows: Vec<(usize, usize)> = Vec::new();
    let mut s: usize = 0;
    let mut s_off: usize = 0;
    proof {
        lemma_byte_offset_ends(chars@);
        lemma_rows_from(chars@, width as nat, 0);
        assert(spans(rows@) + to_bytes(chars@, rows_from(chars@, width as nat, 0))
            =~= wrapped_rows(chars@, content_width));
        assert(spans(krows@) + rows_from(chars@, width as nat, 0) =~= rows_from(
            chars@,
            width as nat,
            0,
        ));
    }
    loop
        invariant
            n == chars.len(),
            byte_len(chars@) <= usize::MAX,
            width == budget(content_width),
            s <= n,
            s_off == byte_offset(chars@, s as int),
            rows@.len() == krows@.len(),
            spans(rows@) + to_bytes(chars@, rows_from(chars@, width as nat, s as int))
                == wrapped_rows(chars@, content_width),
            spans(krows@) + rows_from(chars@, width as nat, s as int) == rows_from(
                chars@,
                width as nat,
                0,
            ),
        decreases n - s,
    {
        let scan = scan_row(chars, width, s, s_off);
        let ghost before = rows@;
        let ghost kbefore = krows@;
        let ghost rest = rows_from(chars@, width as nat, s as int);
        if scan.stop >= n {
            rows.push((s_off, scan.stop_off));
            krows.push((s, n));
            proof {
                assert(rest =~= seq![(s as int, n as int)]);
                assert(spans(rows@) =~= spans(before) + to_bytes(chars@, rest));
                assert(spans(krows@) =~= spans(kbefore) + rest);
            }
            return (rows, krows);
        }
        let c = chars[scan.stop];
        let soft = c != '\n' && scan.brk > s;
        let end = if soft {
            scan.brk
        } else {
            scan.stop
        };
        let end_off = if soft {
            scan.brk_off
        } else {
            scan.stop_off
        };
        rows.push((s_off, end_off));
        krows.push((s, end));
        proof {
            lemma_row_next(chars@, width as nat, s as int);
            lemma_byte_offset_step(chars@, scan.stop as int);
            lemma_byte_offset_mono(chars@, scan.stop + 1, n as int);
            lemma_byte_offset_ends(chars@);
            let next = row_next(chars@, width as nat, s as int);
            let tail = rows_from(chars@, width as nat, next);
            assert(end == row_end(chars@, width as nat, s as int));
            assert(rest == seq![(s as int, end as int)] + tail);
            assert(spans(rows@) + to_bytes(chars@, tail) =~= spans(before) + to_bytes(
                chars@,
                rest,
            ));
            assert(spans(krows@) + tail =~= spans(kbefore) + rest);
        }
        if end == scan.stop && (c == '\n' || c.is_whitespace()) {
            s_off = scan.stop_off + char_len_utf8(c);
            s = scan.stop + 1;
        } else {
            s = end;
            s_off = end_off;
        }
    }
}

/// Splits `text` into visual rows of at most `content_width` columns and
/// returns their byte ranges, in order. A width of zero is treated as one.
///
/// A newline ends its row and belongs to no row. A row that would grow over
/// the width breaks after its last white space, `@` or `/`, or, where it has
/// none, just before the character that does not fit; white space at which a
/// row breaks belongs to no row either. A character wider than the whole
/// width still gets a row of its own.
pub fn wrapped_row_ranges(text: &str, content_width: u16) -> (rows: Vec<(usize, usize)>)
    ensures
        spans(rows@) == wrapped_rows(text@, content_width),
        rows@.len() >= 1,
{
    let chars = chars_of(text);
    let total = str_byte_len(text);
    wrap_chars(&chars, content_width).0
}

/// A count that is held in a `usize`: itself where it fits, else the largest
/// `usize`.
pub open spec fn saturate(x: nat) -> usize {
    if x <= usize::MAX {
        x as usize
    } else {
        usize::MAX
    }
}

/// Width in cells of a piece of text: the sum of the cell widths of its
/// characters (saturating).
pub fn visual_column(slice: &str) -> (col: usize)
    ensures
        col == saturate(cells(slice@)),
{
    let chars = chars_of(slice);
    let mut col: usize = 0;
    let mut k: usize = 0;
    proof {
        assert(chars@.take(0) =~= Seq::<char>::empty());
    }
    while k < chars.len()
        invariant
            k <= chars.len(),
            col == saturate(cells(chars@.take(k as int))),
        decreases chars.len() - k,
    {
        let w = char_cells(chars[k]);
        proof {
            assert(chars@.take(k + 1) =~= chars@.take(k as int).push(chars@[k as int]));
            lemma_cells_push(chars@.take(k as int), chars@[k as int]);
        }
        col = col.saturating_add(w);
        k = k + 1;
    }
    proof {
        assert(chars@.take(k as int) =~= chars@);
    }
    col
}

/// Index of the first row at or after `i` that starts after `cursor`, or the
/// number of rows where there is none.
pub open spec fn first_row_after(rows: Seq<(int, int)>, cursor: int, i: int) -> int
    decreases rows.len() - i,
{
    if i >= rows.len() {
        rows.len() as int
    } else if cursor < rows[i].0 {
        i
    } else {
        first_row_after(rows, cursor, i + 1)
    }
}

/// The row that a cursor at byte offset `cursor` is shown in: the row before
/// the first one that starts after the cursor; row zero where the first row
/// already starts after it, or where there are no rows.
pub open spec fn visual_row(rows: Seq<(int, int)>, cursor: int) -> int {
    let j = first_row_after(rows, cursor, 0);
    if j == 0 {
        0
    } else {
        j - 1
    }
}

/// Rows before the first that starts after the cursor start at or before it.
pub proof fn lemma_first_row_after(rows: Seq<(int, int)>, cursor: int, i: int)
    requires
        0 <= i <= rows.len(),
    ensures
        i <= first_row_after(rows, cursor, i) <= rows.len(),
        first_row_after(rows, cursor, i) < rows.len() ==> cursor < rows[first_row_after(
            rows,
            cursor,
            i,
        )].0,
        forall|m: int| i <= m < first_row_after(rows, cursor, i) ==>
            (#[trigger] rows[m]).0 <= cursor,
    decreases rows.len() - i,
{
    if i < rows.len() && cursor >= rows[i].0 {
        lemma_first_row_after(rows, cursor, i + 1);
    }
}

/// In ordered rows, an earlier row ends before a later one starts.
pub proof fn lemma_rows_sorted(rows: Seq<(int, int)>, len: int, a: int, b: int)
    requires
        ordered_rows(rows, len),
        0 <= a < b < rows.len(),
    ensures
        rows[a].1 <= rows[b].0,
    decreases b - a,
{
    if a + 1 < b {
        lemma_rows_sorted(rows, len, a, b - 1);
        assert(rows[b - 1].0 <= rows[b - 1].1);
        assert(rows[b - 1].1 <= rows[b].0);
    }
}

/// **Row containment.** In ordered rows over `len` bytes, the row found for
/// an offset `o` that does not fall between two rows is the one row that
/// holds it: the row starts at or before `o`, and `o` lies before the row's
/// end, or the row is the last and `o` is the end of the text.
///
/// An offset falls between two rows where it is the place of a newline or
/// of white space that the wrap consumed; the row found is then the row that
/// ends there.
pub proof fn lemma_row_containment(rows: Seq<(int, int)>, len: int, o: int)
    requires
        ordered_rows(rows, len),
        0 <= o <= len,
        forall|i: int| 0 <= i < rows.len() - 1 ==> !((#[trigger] rows[i]).1 <= o < rows[i + 1].0),
    ensures
        0 <= visual_row(rows, o) < rows.len(),
        rows[visual_row(rows, o)].0 <= o,
        o < rows[visual_row(rows, o)].1 || (visual_row(rows, o) == rows.len() - 1 && o == len),
        forall|k: int|
            0 <= k < rows.len() && (#[trigger] rows[k]).0 <= o && (o < rows[k].1 || (k
                == rows.len() - 1 && o == len)) ==> k == visual_row(rows, o),
{
    let j = first_row_after(rows, o, 0);
    let i = visual_row(rows, o);
    lemma_first_row_after(rows, o, 0);
    assert(rows[0].0 <= o);
    assert(j > 0);
    assert(rows[i].0 <= o);
    if j < rows.len() {
        assert(!(rows[i].1 <= o < rows[i + 1].0));
    }
    assert forall|k: int|
        0 <= k < rows.len() && (#[trigger] rows[k]).0 <= o && (o < rows[k].1 || (k == rows.len()
            - 1 && o == len)) implies k == i by {
        if k < i {
            lemma_rows_sorted(rows, len, k, i);
        } else if k > i {
            if k > j {
                lemma_rows_sorted(rows, len, j, k);
                assert(rows[j].0 <= rows[j].1);
            }
        }
    }
}

/// **Row lookup at a consumed separator.** Where `o` falls between two
/// ordered rows, the row found is the earlier of the two.
pub proof fn lemma_row_at_separator(rows: Seq<(int, int)>, len: int, o: int, i: int)
    requires
        ordered_rows(rows, len),
        0 <= i < rows.len() - 1,
        rows[i].1 <= o < rows[i + 1].0,
    ensures
        visual_row(rows, o) == i,
{
    lemma_first_row_after(rows, o, 0);
    let j = first_row_after(rows, o, 0);
    assert(rows[i].0 <= rows[i].1);
    if j <= i {
        if j < i {
            lemma_rows_sorted(rows, len, j, i);
        }
        assert(rows[j].0 <= rows[j].1);
    } else if j > i + 1 {
        assert(rows[i + 1].0 <= o);
    }
}

/// Finds the row that holds the byte offset `cursor`: the last row that
/// starts at or before it, looking no further than the first row that starts
/// after it. Row zero where there is no such row.
pub fn find_visual_row(ranges: &[(usize, usize)], cursor: usize) -> (row: usize)
    ensures
        row == visual_row(spans(ranges@), cursor as int),
        ranges@.len() > 0 ==> row < ranges@.len(),
{
    let mut idx: usize = 0;
    while idx < ranges.len() && cursor >= ranges[idx].0
        invariant
            idx <= ranges.len(),
            first_row_after(spans(ranges@), cursor as int, 0) == first_row_after(
                spans(ranges@),
                cursor as int,
                idx as int,
            ),
        decreases ranges.len() - idx,
    {
        idx = idx + 1;
    }
    if idx == 0 {
        0
    } else {
        idx - 1
    }
}

/// Bytes of the flattened buffer that come before line `r`: the lines before
/// it, each with the newline that follows it.
pub open spec fn line_start(buf: Seq<Seq<char>>, r: int) -> nat
    decreases r,
{
    if r <= 0 {
        0
    } else {
        line_start(buf, r - 1) + byte_len(buf[r - 1]) + 1
    }
}

/// Length in bytes of the flattened buffer: the lines joined by single
/// newlines.
pub open spec fn flat_len(buf: Seq<Seq<char>>) -> nat {
    if buf.len() == 0 {
        0
    } else {
        line_start(buf, buf.len() - 1) + byte_len(buf.last())
    }
}

/// **Flattened length.** The flattened buffer is as long as its lines
/// and one newline for each boundary between two lines.
pub proof fn lemma_flat_len(buf: Seq<Seq<char>>)
    ensures
        flat_len(buf) == byte_len(joined(buf)),
    decreases buf.len(),
{
    if buf.len() == 0 {
        assert(encode_utf8(Seq::<char>::empty()) =~= Seq::<u8>::empty());
    } else if buf.len() == 1 {
        assert(buf.last() == buf[0]);
    } else {
        let before = buf.drop_last();
        lemma_flat_len(before);
        assert(before.last() == buf[buf.len() - 2]);
        assert(line_start(before, before.len() - 1) == line_start(buf, buf.len() - 2)) by {
            lemma_line_start_prefix(buf, before, buf.len() - 2);
        }
        lemma_byte_len_push(joined(before), '\n');
        lemma_char_len('\n');
        lemma_byte_len_concat(joined(before).push('\n'), buf.last());
    }
}

/// The start of a line depends only on the lines before it.
pub proof fn lemma_line_start_prefix(a: Seq<Seq<char>>, b: Seq<Seq<char>>, r: int)
    requires
        0 <= r <= a.len(),
        r <= b.len(),
        forall|i: int| 0 <= i < r ==> a[i] == b[i],
    ensures
        line_start(a, r) == line_start(b, r),
    decreases r,
{
    if r > 0 {
        lemma_line_start_prefix(a, b, r - 1);
    }
}

/// Byte offset in the flattened buffer of the cursor at line `row`, before
/// the character `col` of that line. A column past the end of the line
/// stands for the end of the line, a row past the last line for the end of
/// the buffer.
pub open spec fn cursor_offset(buf: Seq<Seq<char>>, row: int, col: int) -> nat {
    if 0 <= row < buf.len() {
        if 0 <= col < buf[row].len() {
            line_start(buf, row) + byte_offset(buf[row], col)
        } else {
            line_start(buf, row) + byte_len(buf[row])
        }
    } else {
        flat_len(buf)
    }
}

/// Number of whole characters of `line`, from `k` on counted up, that end
/// within its first `rem` bytes.
pub open spec fn chars_within(line: Seq<char>, rem: int, k: int) -> int
    decreases line.len() - k,
{
    if 0 <= k < line.len() && byte_offset(line, k + 1) <= rem {
        chars_within(line, rem, k + 1)
    } else {
        k
    }
}

/// Line and column of the byte offset `rem`, counted from the start of line
/// `i`. An offset past the end of the buffer gives the end of the last line.
pub open spec fn locate(buf: Seq<Seq<char>>, rem: int, i: int) -> (int, int)
    decreases buf.len() - i,
{
    if i >= buf.len() || i < 0 {
        if buf.len() == 0 {
            (0, 0)
        } else {
            (buf.len() - 1, buf.last().len() as int)
        }
    } else if rem <= byte_len(buf[i]) {
        (i, chars_within(buf[i], rem, 0))
    } else {
        locate(buf, rem - byte_len(buf[i]) - 1, i + 1)
    }
}

/// Counting the characters that end within the offset of character `col`
/// gives `col`.
pub proof fn lemma_chars_within(line: Seq<char>, col: int, k: int)
    requires
        0 <= k <= col <= line.len(),
    ensures
        chars_within(line, byte_offset(line, col) as int, k) == col,
    decreases col - k,
{
    if k < col {
        lemma_byte_offset_mono(line, k + 1, col);
        lemma_chars_within(line, col, k + 1);
    } else if k < line.len() {
        lemma_byte_offset_step(line, k);
    }
}

/// Lines start in order.
pub proof fn lemma_line_start_mono(buf: Seq<Seq<char>>, a: int, b: int)
    requires
        0 <= a <= b,
    ensures
        line_start(buf, a) <= line_start(buf, b),
        a < b ==> line_start(buf, a) + byte_len(buf[a]) + 1 <= line_start(buf, b),
    decreases b - a,
{
    if a < b {
        lemma_line_start_mono(buf, a, b - 1);
    }
}

proof fn lemma_locate_from(buf: Seq<Seq<char>>, row: int, col: int, i: int)
    requires
        0 <= i <= row < buf.len(),
        0 <= col <= buf[row].len(),
    ensures
        locate(buf, cursor_offset(buf, row, col) - line_start(buf, i), i) == (row, col),
    decreases row - i,
{
    lemma_byte_offset_ends(buf[row]);
    if i < row {
        lemma_line_start_mono(buf, i, row);
        lemma_locate_from(buf, row, col, i + 1);
    } else {
        lemma_byte_offset_mono(buf[row], col, buf[row].len() as int);
        lemma_chars_within(buf[row], col, 0);
    }
}

/// **Round trip.** For a line of the buffer and a column no greater than
/// the line's length in characters, the byte offset of that cursor leads
/// back to the same line and column.
pub proof fn lemma_cursor_round_trip(buf: Seq<Seq<char>>, row: int, col: int)
    requires
        0 <= row < buf.len(),
        0 <= col <= buf[row].len(),
    ensures
        locate(buf, cursor_offset(buf, row, col) as int, 0) == (row, col),
{
    lemma_locate_from(buf, row, col, 0);
}

/// Length of `s` in bytes.
pub fn str_byte_len(s: &str) -> (n: usize)
    ensures
        n == byte_len(s@),
{
    s.as_bytes().len()
}

/// Byte offset, in the buffer's lines joined by newlines, of the cursor at
/// line `cursor.0`, before character `cursor.1` of that line (saturating).
/// A column past the end of the line gives the end of the line, a line past
/// the last gives the end of the buffer.
pub fn cursor_to_byte_offset(lines: &[String], cursor: (usize, usize)) -> (offset: usize)
    ensures
        offset == saturate(cursor_offset(views_of(lines@), cursor.0 as int, cursor.1 as int)),
{
    let row = cursor.0;
    let col = cursor.1;
    if row >= lines.len() {
        return flat_len_of(lines);
    }
    let ghost buf = views_of(lines@);
    let mut offset: usize = 0;
    let mut idx: usize = 0;
    while idx < row
        invariant
            idx <= row < lines.len(),
            buf == views_of(lines@),
            offset == saturate(line_start(buf, idx as int)),
        decreases row - idx,
    {
        let len = str_byte_len(lines[idx].as_str());
        offset = offset.saturating_add(len).saturating_add(1);
        idx = idx + 1;
    }
    let chars = chars_of(lines[row].as_str());
    let mut within: usize = 0;
    let mut k: usize = 0;
    proof {
        lemma_byte_offset_ends(chars@);
    }
    while k < chars.len() && k < col
        invariant
            k <= chars.len(),
            k <= col,
            within == saturate(byte_offset(chars@, k as int)),
        decreases chars.len() - k,
    {
        proof {
            lemma_byte_offset_step(chars@, k as int);
        }
        within = within.saturating_add(char_len_utf8(chars[k]));
        k = k + 1;
    }
    offset.saturating_add(within)
}

/// Length in bytes of the buffer's lines joined by newlines (saturating).
pub fn flat_len_of(lines: &[String]) -> (len: usize)
    ensures
        len == saturate(flat_len(views_of(lines@))),
{
    if lines.len() == 0 {
        return 0;
    }
    let ghost buf = views_of(lines@);
    let mut total: usize = 0;
    let mut idx: usize = 0;
    while idx + 1 < lines.len()
        invariant
            idx < lines.len(),
            buf == views_of(lines@),
            total == saturate(line_start(buf, idx as int)),
        decreases lines.len() - idx,
    {
        let len = str_byte_len(lines[idx].as_str());
        total = total.saturating_add(len).saturating_add(1);
        idx = idx + 1;
    }
    total.saturating_add(str_byte_len(lines[idx].as_str()))
}

/// Number of whole characters at the start of `chars` that end within its
/// first `rem` bytes.
pub fn chars_fitting(chars: &Vec<char>, rem: usize) -> (count: usize)
    ensures
        count == chars_within(chars@, rem as int, 0),
        count <= chars.len(),
{
    let mut consumed: usize = 0;
    let mut k: usize = 0;
    proof {
        lemma_byte_offset_ends(chars@);
    }
    while k < chars.len()
        invariant
            k <= chars.len(),
            consumed == byte_offset(chars@, k as int),
            consumed <= rem,
            chars_within(chars@, rem as int, 0) == chars_within(chars@, rem as int, k as int),
        decreases chars.len() - k,
    {
        let step = char_len_utf8(chars[k]);
        proof {
            lemma_byte_offset_step(chars@, k as int);
        }
        if step > rem - consumed {
            return k;
        }
        consumed = consumed + step;
        k = k + 1;
    }
    k
}

/// Line and column (in characters) of a byte offset into the buffer's lines
/// joined by newlines. An offset inside a character gives the column of that
/// character; an offset past the end gives the end of the last line.
pub fn byte_offset_to_cursor(lines: &[String], offset: usize) -> (cursor: (usize, usize))
    ensures
        (cursor.0 as int, cursor.1 as int) == locate(views_of(lines@), offset as int, 0),
{
    let ghost buf = views_of(lines@);
    let mut remaining: usize = offset;
    let mut idx: usize = 0;
    while idx < lines.len()
        invariant
            idx <= lines.len(),
            buf == views_of(lines@),
            locate(buf, offset as int, 0) == locate(buf, remaining as int, idx as int),
        decreases lines.len() - idx,
    {
        let len = str_byte_len(lines[idx].as_str());
        if remaining <= len {
            let chars = chars_of(lines[idx].as_str());
            return (idx, chars_fitting(&chars, remaining));
        }
        remaining = remaining - len - 1;
        idx = idx + 1;
    }
    if lines.len() == 0 {
        (0, 0)
    } else {
        let last = lines.len() - 1;
        (last, chars_of(lines[last].as_str()).len())
    }
}

} // verus!
