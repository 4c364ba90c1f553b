//! Sections stacked from the top of an area downwards, and the cutting of
//! a text to a width.

use crate::layout::visual::cap16;
use crate::primitives::chars::{char_columns, chars_of, str_columns, table_str_width, table_width};
use crate::primitives::geom::Rect;
use crate::primitives::scrollbar::plus16;
use crate::theme::{CellStyle, Theme, ThemeElement};
use vstd::prelude::*;
use vstd::string::*;

verus! {

/// A run of text in one style.
#[derive(Debug)]
pub struct StyledSpan {
    pub text: String,
    pub style: CellStyle,
}

/// A line of styled runs.
#[derive(Debug)]
pub struct StyledLine {
    pub spans: Vec<StyledSpan>,
}

/// What a line shows: the text and style of each of its runs.
pub open spec fn line_view(line: StyledLine) -> Seq<(Seq<char>, CellStyle)> {
    Seq::new(line.spans@.len(), |i: int| (line.spans@[i].text@, line.spans@[i].style))
}

/// What the lines of a section show.
pub open spec fn section_view(lines: Seq<StyledLine>) -> Seq<Seq<(Seq<char>, CellStyle)>> {
    Seq::new(lines.len(), |i: int| line_view(lines[i]))
}

/// Create a simple styled text line.
pub fn text_line(text: String, style: CellStyle) -> (line: StyledLine)
    ensures
        line_view(line) == seq![(text@, style)],
{
    let mut spans: Vec<StyledSpan> = Vec::new();
    spans.push(StyledSpan { text, style });
    let line = StyledLine { spans };
    proof {
        assert(line_view(line) =~= seq![(text@, style)]);
    }
    line
}

/// Wrap a section body with a styled title header: the title in bold
/// primary, an empty line, then the body. `None` for an empty body.
pub fn wrap_section(title: &str, theme: &Theme, body: Vec<StyledLine>) -> (section: Option<
    Vec<StyledLine>,
>)
    ensures
        body@.len() == 0 ==> section is None,
        body@.len() > 0 ==> section is Some && section_view(section->0@) == seq![
            seq![
                (title@, CellStyle { bold: true, ..theme.spec_style(ThemeElement::Primary) }),
            ],
            Seq::<(Seq<char>, CellStyle)>::empty(),
        ] + section_view(body@),
{
    if body.len() == 0 {
        return None;
    }
    let ghost given = section_view(body@);
    let mut lines: Vec<StyledLine> = Vec::new();
    let mut head = String::new();
    head.append(title);
    lines.push(text_line(head, theme.style(ThemeElement::Primary).bold()));
    lines.push(StyledLine { spans: Vec::new() });
    let ghost top = section_view(lines@);
    proof {
        assert(line_view(lines@[1]) =~= Seq::<(Seq<char>, CellStyle)>::empty());
        assert(top =~= seq![
            seq![
                (title@, CellStyle { bold: true, ..theme.spec_style(ThemeElement::Primary) }),
            ],
            Seq::<(Seq<char>, CellStyle)>::empty(),
        ]);
    }
    let mut body = body;
    lines.append(&mut body);
    proof {
        assert(section_view(lines@) =~= top + given);
    }
    Some(lines)
}

/// The place of one section of a stack.
#[derive(Debug, Clone, Copy, PartialEq, Eq, Structural)]
pub struct StackSlot {
    /// Index of the section among those given.
    pub index: usize,
    pub area: Rect,
}

/// The sections from `k` on, stacked from row `cursor` down. An empty
/// section takes no place. Each other takes its lines and the padding
/// above and below, cut at the bottom of the area; nothing is placed from
/// the bottom on.
pub open spec fn stack_from(inner: Rect, lens: Seq<usize>, pad: int, k: int, cursor: int) -> Seq<
    StackSlot,
>
    decreases lens.len() - k,
{
    let bottom = plus16(inner.y as int, inner.height as int);
    if k < 0 || k >= lens.len() || cursor >= bottom {
        Seq::empty()
    } else if lens[k] == 0 {
        stack_from(inner, lens, pad, k + 1, cursor)
    } else {
        let wanted = plus16(cap16(lens[k] as int) as int, pad);
        let height = if wanted <= bottom - cursor {
            wanted
        } else {
            bottom - cursor
        };
        seq![
            StackSlot {
                index: k as usize,
                area: Rect {
                    x: inner.x,
                    y: cursor as u16,
                    width: inner.width,
                    height: height as u16,
                },
            },
        ] + stack_from(inner, lens, pad, k + 1, cursor + height)
    }
}

/// The places of the sections of a stack in `inner`: none in an area
/// without cells, else the sections from the top down.
pub open spec fn block_stack_of(
    inner: Rect,
    lens: Seq<usize>,
    padding_top: u16,
    padding_bottom: u16,
) -> Seq<StackSlot> {
    if inner.width == 0 || inner.height == 0 {
        Seq::empty()
    } else {
        stack_from(
            inner,
            lens,
            plus16(padding_top as int, padding_bottom as int),
            0,
            inner.y as int,
        )
    }
}

/// Places a vertical stack of sections, given by their numbers of lines,
/// in `inner`, each with the same padding above and below.
pub fn block_stack_areas(inner: Rect, lens: &Vec<usize>, padding_top: u16, padding_bottom: u16) -> (slots:
    Vec<StackSlot>)
    ensures
        slots@ == block_stack_of(inner, lens@, padding_top, padding_bottom),
{
    let mut slots: Vec<StackSlot> = Vec::new();
    if inner.width == 0 || inner.height == 0 {
        return slots;
    }
    let pad = padding_top.saturating_add(padding_bottom);
    let bottom = inner.y.saturating_add(inner.height);
    let mut cursor: u16 = inner.y;
    let mut k: usize = 0;
    let ghost whole = stack_from(inner, lens@, pad as int, 0, inner.y as int);
    proof {
        assert(slots@ + whole =~= whole);
    }
    while k < lens.len() && cursor < bottom
        invariant
            k <= lens.len(),
            cursor <= bottom,
            bottom == plus16(inner.y as int, inner.height as int),
            slots@ + stack_from(inner, lens@, pad as int, k as int, cursor as int) == whole,
        decreases lens.len() - k,
    {
        let len = lens[k];
        if len > 0 {
            let lines: u16 = if len > u16::MAX as usize {
                u16::MAX
            } else {
                len as u16
            };
            let wanted = lines.saturating_add(pad);
            let room = bottom - cursor;
            let height = if wanted <= room {
                wanted
            } else {
                room
            };
            let slot = StackSlot {
                index: k,
                area: Rect { x: inner.x, y: cursor, width: inner.width, height },
            };
            proof {
                assert(slots@.push(slot) + stack_from(
                    inner,
                    lens@,
                    pad as int,
                    k + 1,
                    cursor + height,
                ) =~= slots@ + stack_from(inner, lens@, pad as int, k as int, cursor as int));
            }
            slots.push(slot);
            cursor = cursor + height;
        }
        k = k + 1;
    }
    proof {
        assert(stack_from(inner, lens@, pad as int, k as int, cursor as int) =~= Seq::<
            StackSlot,
        >::empty());
        assert(slots@ + Seq::<StackSlot>::empty() =~= slots@);
    }
    slots
}

/// Columns of `c` as the cutting counts them: the table's width, none for
/// a control character.
pub open spec fn cut_columns(c: char) -> int {
    match char_columns(c) {
        Some(n) => n as int,
        None => 0,
    }
}

/// The characters of `text` from `k` on that are kept when `used` columns
/// are taken already and a character must leave the total under `limit`:
/// characters without width are passed over, and the first character
/// that reaches the limit ends the text.
pub open spec fn kept_from(text: Seq<char>, limit: int, k: int, used: int) -> Seq<char>
    decreases text.len() - k,
{
    if k < 0 || k >= text.len() {
        Seq::empty()
    } else if cut_columns(text[k]) == 0 {
        kept_from(text, limit, k + 1, used)
    } else if used + cut_columns(text[k]) >= limit {
        Seq::empty()
    } else {
        seq![text[k]] + kept_from(text, limit, k + 1, used + cut_columns(text[k]))
    }
}

/// `text` cut to `max_width` columns: empty for no columns; the text
/// itself where it fits; else the characters kept under `max_width - 1`
/// columns, and an ellipsis.
pub open spec fn truncated_to(text: Seq<char>, max_width: int) -> Seq<char> {
    if max_width == 0 {
        Seq::empty()
    } else if str_columns(text) <= max_width {
        text
    } else {
        kept_from(text, max_width - 1, 0, 0).push('\u{2026}')
    }
}

/// Truncate text to fit within a maximum display width, adding ellipsis if needed.
pub fn truncate_to_width(text: &str, max_width: usize) -> (out: String)
    ensures
        out@ == truncated_to(text@, max_width as int),
{
    if max_width == 0 {
        return String::new();
    }
    if table_str_width(text) <= max_width {
        let mut whole = String::new();
        whole.append(text);
        proof {
            assert(whole@ =~= text@);
        }
        return whole;
    }
    let chars = chars_of(text);
    let limit = max_width - 1;
    let mut acc = String::new();
    let mut used: usize = 0;
    let mut k: usize = 0;
    let mut open = true;
    let ghost whole = kept_from(chars@, limit as int, 0, 0);
    proof {
        assert(acc@ + whole =~= whole);
    }
    while open && k < chars.len()
        invariant
            k <= chars.len(),
            used <= limit,
            open ==> acc@ + kept_from(chars@, limit as int, k as int, used as int) == whole,
            !open ==> acc@ == whole,
        decreases chars.len() - k,
    {
        let width: usize = match table_width(chars[k]) {
            Some(n) => n,
            None => 0,
        };
        if width == 0 {
        } else if width >= limit - used {
            open = false;
            proof {
                assert(acc@ + Seq::<char>::empty() =~= acc@);
            }
        } else {
            proof {
                assert(acc@.push(chars@[k as int]) + kept_from(
                    chars@,
                    limit as int,
                    k + 1,
                    used + width,
                ) =~= acc@ + kept_from(chars@, limit as int, k as int, used as int));
            }
            acc.push(chars[k]);
            used = used + width;
        }
        k = k + 1;
    }
    proof {
        if open {
            assert(acc@ + Seq::<char>::empty() =~= acc@);
        }
    }
    acc.push('\u{2026}');
    acc
}

} // verus!
