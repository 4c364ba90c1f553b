//! Where the cursor is shown under a wrap, and where it goes when it moves
//! by visual rows.

use crate::layout::text::{
    budget, chars_fitting, chars_within, find_visual_row, lemma_rows_from, rows_from, spans,
    str_byte_len, to_bytes, visual_row, wrap_chars, wrapped_rows,
};
use crate::primitives::chars::{
    byte_len, byte_offset, cells, char_cells, char_len_utf8, chars_of,
    lemma_byte_offset_ends, lemma_byte_offset_mono, lemma_byte_offset_step, lemma_cells_push,
};
use vstd::prelude::*;

verus! {

/// A count that is held in a `u16`: itself where it fits, else the largest
/// `u16`.
pub open spec fn cap16(x: int) -> u16 {
    if x < 0 {
        0
    } else if x > u16::MAX {
        u16::MAX
    } else {
        x as u16
    }
}

/// A count as a `u16`: itself where it fits, else the largest `u16`.
pub fn cap_u16(n: usize) -> (c: u16)
    ensures
        c == cap16(n as int),
{
    if n > u16::MAX as usize {
        u16::MAX
    } else {
        n as u16
    }
}

/// `x` brought into `lo ..= hi`.
pub open spec fn between(x: int, lo: int, hi: int) -> int {
    if x < lo {
        lo
    } else if x > hi {
        hi
    } else {
        x
    }
}

/// A byte offset brought into the text.
pub open spec fn within_text(text: Seq<char>, cursor: int) -> int {
    if cursor <= byte_len(text) {
        cursor
    } else {
        byte_len(text) as int
    }
}

/// Row and column, in cells, at which a cursor at byte offset `cursor` is
/// shown when `text` is wrapped to `content_width`: the row found for the
/// offset, and the cells of that row's characters before the cursor. An
/// offset past the text stands for its end, one inside a character for the
/// start of that character.
pub open spec fn visual_position_of(text: Seq<char>, cursor: int, content_width: u16) -> (
    int,
    int,
) {
    let at = within_text(text, cursor);
    let row = visual_row(wrapped_rows(text, content_width), at);
    let krow = rows_from(text, budget(content_width), 0)[row];
    let k = between(chars_within(text, at, 0), krow.0, krow.1);
    (row, cells(text.subrange(krow.0, k)) as int)
}

/// Byte offset of the end of the visual row that the cursor is in; the end
/// of the text where the width is zero or the text is empty.
pub open spec fn visual_line_end_of(text: Seq<char>, cursor: int, content_width: u16) -> int {
    if content_width == 0 || text.len() == 0 {
        byte_len(text) as int
    } else {
        let rows = wrapped_rows(text, content_width);
        rows[visual_row(rows, within_text(text, cursor))].1
    }
}

/// End of the longest run of characters `text[ks..j']`, `j <= j' <= ke`,
/// whose cells do not exceed `goal`.
pub open spec fn fit_end(text: Seq<char>, ks: int, ke: int, goal: int, j: int) -> int
    decreases ke - j,
{
    if j < ke && cells(text.subrange(ks, j + 1)) <= goal {
        fit_end(text, ks, ke, goal, j + 1)
    } else {
        j
    }
}

/// Byte offset to which the cursor goes when it moves one visual row up or
/// down, keeping its column as far as the target row allows.
///
/// None where the width is zero, the text is empty or has a single row, or
/// there is no row in that direction. Else the offset behind the characters
/// of the target row that fit in the cursor's column; where they fall short
/// of that column, the end of the target row.
pub open spec fn vertical_target_of(text: Seq<char>, cursor: int, up: bool, content_width: u16)
    -> Option<int> {
    let rows = wrapped_rows(text, content_width);
    let krows = rows_from(text, budget(content_width), 0);
    let row = visual_row(rows, within_text(text, cursor));
    if content_width == 0 || text.len() == 0 || rows.len() <= 1 {
        None
    } else if up && row == 0 {
        None
    } else if !up && row + 1 >= rows.len() {
        None
    } else {
        let target = if up {
            row - 1
        } else {
            row + 1
        };
        let goal = cap16(visual_position_of(text, cursor, content_width).1) as int;
        let fit = fit_end(text, krows[target].0, krows[target].1, goal, krows[target].0);
        if cells(text.subrange(krows[target].0, fit)) < goal {
            Some(rows[target].1)
        } else {
            Some(byte_offset(text, fit) as int)
        }
    }
}

/// Integer view of an offset that may be absent.
pub open spec fn offset_view(o: Option<usize>) -> Option<int> {
    match o {
        Some(x) => Some(x as int),
        None => None,
    }
}

/// Cells of `chars[from..to]`, no more than a `u16` holds.
fn cells_in(chars: &Vec<char>, from: usize, to: usize) -> (total: u16)
    requires
        from <= to <= chars.len(),
    ensures
        total == cap16(cells(chars@.subrange(from as int, to as int)) as int),
{
    let mut total: u16 = 0;
    let mut k: usize = from;
    proof {
        assert(chars@.subrange(from as int, from as int) =~= Seq::<char>::empty());
    }
    while k < to
        invariant
            from <= k <= to <= chars.len(),
            total == cap16(cells(chars@.subrange(from as int, k as int)) as int),
        decreases to - k,
    {
        let w = char_cells(chars[k]);
        proof {
            assert(chars@.subrange(from as int, k + 1) =~= chars@.subrange(
                from as int,
                k as int,
            ).push(chars@[k as int]));
            lemma_cells_push(chars@.subrange(from as int, k as int), chars@[k as int]);
        }
        total = total.saturating_add(w as u16);
        k = k + 1;
    }
    total
}

/// The cursor's place under a wrap, with what the callers below need of it.
struct Placed {
    row: usize,
    col: u16,
    rows: Vec<(usize, usize)>,
    krows: Vec<(usize, usize)>,
}

fn place(chars: &Vec<char>, cursor: usize, content_width: u16) -> (p: Placed)
    requires
        byte_len(chars@) <= usize::MAX,
    ensures
        spans(p.rows@) == wrapped_rows(chars@, content_width),
        spans(p.krows@) == rows_from(chars@, budget(content_width), 0),
        p.rows@.len() == p.krows@.len(),
        p.row < p.rows@.len(),
        p.row == visual_position_of(chars@, cursor as int, content_width).0,
        p.col == cap16(visual_position_of(chars@, cursor as int, content_width).1),
        forall|i: int|
            0 <= i < p.krows@.len() ==> (#[trigger] p.krows@[i]).0 <= p.krows@[i].1
                <= chars@.len(),
{
    proof {
        lemma_byte_offset_ends(chars@);
        lemma_rows_from(chars@, budget(content_width), 0);
    }
    let total = byte_total(chars);
    let at = if cursor <= total {
        cursor
    } else {
        total
    };
    let both = wrap_chars(chars, content_width);
    let rows = both.0;
    let krows = both.1;
    let row = find_visual_row(rows.as_slice(), at);
    proof {
        assert forall|i: int| 0 <= i < krows@.len() implies (#[trigger] krows@[i]).0
            <= krows@[i].1 <= chars@.len() by {
            assert(spans(krows@)[i] == rows_from(chars@, budget(content_width), 0)[i]);
        }
        assert(spans(krows@)[row as int] == rows_from(chars@, budget(content_width), 0)[row as int]);
    }
    let ks = krows[row].0;
    let ke = krows[row].1;
    let k = chars_fitting(chars, at);
    let kc = if k < ks {
        ks
    } else if k > ke {
        ke
    } else {
        k
    };
    let col = cells_in(chars, ks, kc);
    Placed { row, col, rows, krows }
}

/// Length of `chars` in bytes.
fn byte_total(chars: &Vec<char>) -> (total: usize)
    requires
        byte_len(chars@) <= usize::MAX,
    ensures
        total == byte_len(chars@),
{
    let mut total: usize = 0;
    let mut k: usize = 0;
    proof {
        lemma_byte_offset_ends(chars@);
    }
    while k < chars.len()
        invariant
            k <= chars.len(),
            byte_len(chars@) <= usize::MAX,
            total == byte_offset(chars@, k as int),
        decreases chars.len() - k,
    {
        proof {
            lemma_byte_offset_step(chars@, k as int);
            lemma_byte_offset_mono(chars@, k + 1, chars.len() as int);
            lemma_byte_offset_ends(chars@);
        }
        total = total + char_len_utf8(chars[k]);
        k = k + 1;
    }
    total
}

/// Row and column, in cells, at which the cursor at byte offset `cursor` is
/// shown when `text` is wrapped to `content_width` (each no more than a
/// `u16` holds).
pub fn cursor_visual_position(text: &str, cursor: usize, content_width: u16) -> (pos: (u16, u16))
    ensures
        pos.0 == cap16(visual_position_of(text@, cursor as int, content_width).0),
        pos.1 == cap16(visual_position_of(text@, cursor as int, content_width).1),
{
    let chars = chars_of(text);
    let total = str_byte_len(text);
    let placed = place(&chars, cursor, content_width);
    let row: u16 = if placed.row > u16::MAX as usize {
        u16::MAX
    } else {
        placed.row as u16
    };
    (row, placed.col)
}

/// Byte offset of the end of the visual row that the cursor is in.
pub fn visual_line_end(text: &str, cursor: usize, content_width: u16) -> (end: usize)
    ensures
        end == visual_line_end_of(text@, cursor as int, content_width),
{
    let chars = chars_of(text);
    let total = str_byte_len(text);
    if content_width == 0 || chars.len() == 0 {
        return total;
    }
    let placed = place(&chars, cursor, content_width);
    proof {
        assert(spans(placed.rows@)[placed.row as int] == wrapped_rows(
            text@,
            content_width,
        )[placed.row as int]);
    }
    placed.rows[placed.row].1
}

/// Walks the row `chars[ks..ke]`, which starts at byte `start`, as far as
/// its cells stay within `goal`. Returns the byte offset reached and the
/// cells passed.
fn fit_row(chars: &Vec<char>, ks: usize, ke: usize, start: usize, goal: u16) -> (r: (usize, u16))
    requires
        ks <= ke <= chars.len(),
        byte_len(chars@) <= usize::MAX,
        start == byte_offset(chars@, ks as int),
    ensures
        r.0 == byte_offset(
            chars@,
            fit_end(chars@, ks as int, ke as int, goal as int, ks as int),
        ),
        r.1 == cells(
            chars@.subrange(
                ks as int,
                fit_end(chars@, ks as int, ke as int, goal as int, ks as int),
            ),
        ),
{
    let mut j: usize = ks;
    let mut off: usize = start;
    let mut acc: u16 = 0;
    proof {
        assert(chars@.subrange(ks as int, ks as int) =~= Seq::<char>::empty());
    }
    while j < ke
        invariant
            ks <= j <= ke <= chars.len(),
            byte_len(chars@) <= usize::MAX,
            off == byte_offset(chars@, j as int),
            acc == cells(chars@.subrange(ks as int, j as int)),
            acc <= goal,
            fit_end(chars@, ks as int, ke as int, goal as int, ks as int) == fit_end(
                chars@,
                ks as int,
                ke as int,
                goal as int,
                j as int,
            ),
        decreases ke - j,
    {
        let w = char_cells(chars[j]);
        proof {
            assert(chars@.subrange(ks as int, j + 1) =~= chars@.subrange(
                ks as int,
                j as int,
            ).push(chars@[j as int]));
            lemma_cells_push(chars@.subrange(ks as int, j as int), chars@[j as int]);
            lemma_byte_offset_step(chars@, j as int);
            lemma_byte_offset_mono(chars@, j + 1, chars.len() as int);
            lemma_byte_offset_ends(chars@);
        }
        if w > (goal - acc) as usize {
            return (off, acc);
        }
        acc = acc + w as u16;
        off = off + char_len_utf8(chars[j]);
        j = j + 1;
    }
    (off, acc)
}

/// Byte offset to which the cursor goes when it moves one visual row up
/// (`up`) or down, or `None` where it cannot move.
pub fn visual_vertical_target(text: &str, cursor: usize, up: bool, content_width: u16) -> (target:
    Option<usize>)
    ensures
        offset_view(target) == vertical_target_of(text@, cursor as int, up, content_width),
{
    let chars = chars_of(text);
    let total = str_byte_len(text);
    if content_width == 0 || chars.len() == 0 {
        return None;
    }
    let placed = place(&chars, cursor, content_width);
    if placed.rows.len() <= 1 {
        return None;
    }
    if up && placed.row == 0 {
        return None;
    }
    if !up && placed.row + 1 >= placed.rows.len() {
        return None;
    }
    let target: usize = if up {
        placed.row - 1
    } else {
        placed.row + 1
    };
    let goal: u16 = placed.col;
    proof {
        assert(spans(placed.rows@)[target as int] == wrapped_rows(text@, content_width)[target as int]);
        assert(spans(placed.krows@)[target as int] == rows_from(
            text@,
            budget(content_width),
            0,
        )[target as int]);
        assert(wrapped_rows(text@, content_width) == to_bytes(
            text@,
            rows_from(text@, budget(content_width), 0),
        ));
        lemma_byte_offset_ends(chars@);
    }
    let ks = placed.krows[target].0;
    let ke = placed.krows[target].1;
    let fit = fit_row(&chars, ks, ke, placed.rows[target].0, goal);
    let acc = fit.1;
    let off = fit.0;
    if acc < goal {
        Some(placed.rows[target].1)
    } else {
        Some(off)
    }
}

} // verus!
