//! Counting the rows that a text takes when each of its lines is folded at
//! the content width.

use crate::layout::visual::cap16;
use crate::primitives::chars::{chars_of, str_columns, table_str_width};
use crate::primitives::strings::{split_lines, split_lines_of, string_of, views_of};
use vstd::prelude::*;
use vstd::string::*;

verus! {

/// Line `i` of the pieces of a text as it is measured: without the
/// carriage return that ends it before a newline.
pub open spec fn measured_line(pieces: Seq<Seq<char>>, i: int) -> Seq<char> {
    let line = pieces[i];
    if i + 1 < pieces.len() && line.len() > 0 && line.last() == '\r' {
        line.drop_last()
    } else {
        line
    }
}

/// Rows of one line that is `columns` wide in a content `width` wide: one
/// for an empty line, else as many as its columns fill.
pub open spec fn line_rows(columns: int, width: int) -> int {
    if columns == 0 {
        1
    } else {
        (columns + width - 1) / width
    }
}

/// Rows of the first `k` lines.
pub open spec fn rows_upto(pieces: Seq<Seq<char>>, width: int, k: int) -> int
    decreases k,
{
    if k <= 0 {
        0
    } else {
        rows_upto(pieces, width, k - 1) + line_rows(
            str_columns(measured_line(pieces, k - 1)) as int,
            width,
        )
    }
}

/// Rows that `text` takes in a content `content_w` columns wide (one
/// column at least): none for the empty text; else the rows of its lines,
/// the empty line behind a newline at the end among them; no more than a
/// `u16` holds.
pub open spec fn wrapped_row_count_of(text: Seq<char>, content_w: u16) -> u16 {
    if text.len() == 0 {
        0
    } else {
        cap16(
            rows_upto(
                split_lines_of(text),
                if content_w >= 1 {
                    content_w as int
                } else {
                    1
                },
                split_lines_of(text).len() as int,
            ),
        )
    }
}

/// No line takes less than a row.
pub proof fn lemma_rows_upto(pieces: Seq<Seq<char>>, width: int, k: int)
    requires
        width >= 1,
        0 <= k,
    ensures
        rows_upto(pieces, width, k) >= k,
    decreases k,
{
    if k > 0 {
        lemma_rows_upto(pieces, width, k - 1);
        let columns = str_columns(measured_line(pieces, k - 1)) as int;
        if columns > 0 {
            assert((columns + width - 1) / width >= 1) by (nonlinear_arith)
                requires
                    columns >= 1,
                    width >= 1,
            ;
        }
    }
}

/// Count visual rows needed to render the input text given content width.
/// Preserves a trailing blank line if text ends with a newline.
pub fn wrapped_row_count(text: &str, content_w: u16) -> (rows: u16)
    ensures
        rows == wrapped_row_count_of(text@, content_w),
{
    let lines = split_lines(text);
    if lines.len() == 1 && chars_of(lines[0].as_str()).len() == 0 {
        proof {
            assert(views_of(lines@)[0] == lines@[0]@);
            assert(split_lines_of(text@)[0].len() == 0);
            crate::primitives::strings::lemma_join_split(text@);
            assert(crate::primitives::strings::joined(split_lines_of(text@)) == split_lines_of(
                text@,
            )[0]);
        }
        return 0;
    }
    proof {
        if text@.len() == 0 {
            assert(split_lines_of(text@) =~= seq![Seq::<char>::empty()]) by {
                assert(text@.subrange(0, 0) =~= Seq::<char>::empty());
            }
            assert(views_of(lines@)[0] == lines@[0]@);
        }
    }
    let width: usize = if content_w >= 1 {
        content_w as usize
    } else {
        1
    };
    let ghost pieces = split_lines_of(text@);
    let mut total: usize = 0;
    let mut capped = false;
    let mut k: usize = 0;
    while k < lines.len()
        invariant
            k <= lines.len(),
            width >= 1,
            width <= u16::MAX,
            pieces == views_of(lines@),
            !capped ==> total == rows_upto(pieces, width as int, k as int),
            !capped ==> total <= u16::MAX,
            capped ==> rows_upto(pieces, width as int, k as int) > u16::MAX,
        decreases lines.len() - k,
    {
        let chars = chars_of(lines[k].as_str());
        proof {
            assert(pieces[k as int] == lines@[k as int]@);
        }
        let n = chars.len();
        let end: usize = if k + 1 < lines.len() && n > 0 && chars[n - 1] == '\r' {
            n - 1
        } else {
            n
        };
        let line = string_of(&chars, 0, end);
        proof {
            assert(chars@.subrange(0, end as int) =~= measured_line(pieces, k as int));
        }
        let columns = table_str_width(line.as_str());
        proof {
            lemma_rows_upto(pieces, width as int, k as int);
            lemma_rows_upto(pieces, width as int, k + 1);
        }
        if !capped {
            let here: usize = if columns == 0 {
                1
            } else {
                (columns - 1) / width + 1
            };
            proof {
                if columns > 0 {
                    assert((columns - 1) / (width as int) + 1 == (columns + width - 1) / (
                    width as int)) by (nonlinear_arith)
                        requires
                            columns >= 1,
                            width >= 1,
                    ;
                }
            }
            if here > u16::MAX as usize - total {
                capped = true;
            } else {
                total = total + here;
            }
        } else {
            proof {
                let c = str_columns(measured_line(pieces, k as int)) as int;
                if c > 0 {
                    assert((c + width - 1) / (width as int) >= 0) by (nonlinear_arith)
                        requires
                            c >= 1,
                            width >= 1,
                    ;
                }
            }
        }
        k = k + 1;
    }
    if capped {
        u16::MAX
    } else {
        total as u16
    }
}

} // verus!
