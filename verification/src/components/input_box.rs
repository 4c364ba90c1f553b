//! The input box: where its prompt, its text and its scrollbar go, how far
//! the text is scrolled, and where the cursor is shown.

use crate::layout::text::{budget, lemma_rows_from, rows_from, spans, str_byte_len, wrap_chars};
use crate::layout::visual::cap16;
use crate::primitives::chars::{chars_of, is_space, str_columns, table_str_width};
use crate::primitives::geom::Rect;
use crate::primitives::scrollbar::{minus, plus16};
use crate::primitives::strings::{push_repeated, repeated, string_of, views_of};
use crate::theme::{CellStyle, Color, Theme, ThemeElement};
use vstd::prelude::*;
use vstd::string::*;

verus! {

/// A cell of the screen.
#[derive(Debug, Clone, Copy, PartialEq, Eq, Structural)]
pub struct Position {
    pub x: u16,
    pub y: u16,
}

/// Geometry info for an input box's internal scrollbar.
#[derive(Debug, Clone, Copy, PartialEq, Eq, Structural)]
pub struct ScrollbarGeometry {
    pub bar_x: u16,
    pub top: u16,
    pub height: u16,
    pub thumb_top: u16,
    pub thumb_h: u16,
    pub max_scroll: u16,
}

impl Default for ScrollbarGeometry {
    fn default() -> (g: Self)
        ensures
            g == (ScrollbarGeometry {
                bar_x: 0,
                top: 0,
                height: 0,
                thumb_top: 0,
                thumb_h: 0,
                max_scroll: 0,
            }),
    {
        ScrollbarGeometry { bar_x: 0, top: 0, height: 0, thumb_top: 0, thumb_h: 0, max_scroll: 0 }
    }
}

/// Outcome of a render pass, including updated scroll and geometry.
#[derive(Debug, Clone, Copy, PartialEq, Eq, Structural)]
pub struct InputBoxOutcome {
    pub scroll_offset: u16,
    pub scrollbar: Option<ScrollbarGeometry>,
    pub cursor_screen_pos: Position,
}

/// The areas of an input box.
#[derive(Debug, Clone, Copy, PartialEq, Eq, Structural)]
pub struct InputAreas {
    /// The area of the title, where the box is high enough for one.
    pub title: Option<Rect>,
    /// The box without its padding rows.
    pub inner: Rect,
    /// The part of the inner area that the text is drawn in.
    pub content: Rect,
}

/// Columns that the prompt takes: its width, the gap behind it and the
/// padding before it (no more than a `u16` holds, at every step).
pub open spec fn prompt_columns(prompt: Seq<char>, gap: u16, padding_left: u16) -> int {
    plus16(plus16(cap16(str_columns(prompt) as int) as int, gap as int), padding_left as int)
}

/// Columns that the prompt takes.
pub fn prompt_cols(prompt: &str, gap: u16, padding_left: u16) -> (cols: u16)
    ensures
        cols == prompt_columns(prompt@, gap, padding_left),
{
    let width = table_str_width(prompt);
    let width16: u16 = if width > u16::MAX as usize {
        u16::MAX
    } else {
        width as u16
    };
    width16.saturating_add(gap).saturating_add(padding_left)
}

/// The smaller of two numbers.
pub open spec fn least(a: int, b: int) -> int {
    if a <= b {
        a
    } else {
        b
    }
}

/// The areas of an input box in `area`. The padding rows come off the top
/// and the bottom as far as rows are left for the text; the prompt columns
/// come off the left, and the text keeps at least one column. A title gets
/// the first row of a box of three rows or more.
pub open spec fn input_areas_of(
    area: Rect,
    has_title: bool,
    prompt_cols: u16,
    padding_top: u16,
    padding_bottom: u16,
) -> InputAreas {
    let pad_top = least(padding_top as int, area.height as int);
    let pad_bottom = least(padding_bottom as int, area.height - pad_top);
    let inner = if area.height > pad_top + pad_bottom {
        Rect {
            x: area.x,
            y: plus16(area.y as int, pad_top) as u16,
            width: area.width,
            height: (area.height - pad_top - pad_bottom) as u16,
        }
    } else {
        area
    };
    InputAreas {
        title: if has_title && area.height >= 3 {
            Some(Rect { x: area.x, y: area.y, width: area.width, height: 1 })
        } else {
            None
        },
        inner,
        content: Rect {
            x: plus16(inner.x as int, prompt_cols as int) as u16,
            y: inner.y,
            width: if minus(inner.width as int, prompt_cols as int) < 1 {
                1
            } else {
                minus(inner.width as int, prompt_cols as int) as u16
            },
            height: inner.height,
        },
    }
}

/// Computes the areas of an input box.
pub fn input_areas(
    area: Rect,
    has_title: bool,
    prompt_cols: u16,
    padding_top: u16,
    padding_bottom: u16,
) -> (areas: InputAreas)
    ensures
        areas == input_areas_of(area, has_title, prompt_cols, padding_top, padding_bottom),
        areas.content.width >= 1,
{
    let pad_top = if padding_top <= area.height {
        padding_top
    } else {
        area.height
    };
    let rest = area.height - pad_top;
    let pad_bottom = if padding_bottom <= rest {
        padding_bottom
    } else {
        rest
    };
    let inner = if rest > pad_bottom {
        Rect {
            x: area.x,
            y: area.y.saturating_add(pad_top),
            width: area.width,
            height: rest - pad_bottom,
        }
    } else {
        area
    };
    let width = inner.width.saturating_sub(prompt_cols);
    InputAreas {
        title: if has_title && area.height >= 3 {
            Some(Rect { x: area.x, y: area.y, width: area.width, height: 1 })
        } else {
            None
        },
        inner,
        content: Rect {
            x: inner.x.saturating_add(prompt_cols),
            y: inner.y,
            width: if width < 1 {
                1
            } else {
                width
            },
            height: inner.height,
        },
    }
}

/// How far the text is scrolled. The offset asked for is brought within
/// the rows that do not fit. Where the window follows the cursor, a cursor
/// above the window becomes its first row, one below it its last row, and
/// the result is brought within the same bound again.
pub open spec fn input_scroll_of(
    total_rows: u16,
    content_height: u16,
    scroll_offset: u16,
    follow_cursor: bool,
    cursor_row: u16,
) -> int {
    let max_scroll = minus(total_rows as int, content_height as int);
    let start = least(scroll_offset as int, max_scroll);
    if !follow_cursor {
        start
    } else if cursor_row < start {
        least(cursor_row as int, max_scroll)
    } else if cursor_row >= plus16(start, content_height as int) {
        least(minus(cursor_row as int, minus(content_height as int, 1)), max_scroll)
    } else {
        start
    }
}

/// Computes how far the text of an input box is scrolled.
pub fn input_scroll(
    total_rows: u16,
    content_height: u16,
    scroll_offset: u16,
    follow_cursor: bool,
    cursor_row: u16,
) -> (scroll: u16)
    ensures
        scroll == input_scroll_of(
            total_rows,
            content_height,
            scroll_offset,
            follow_cursor,
            cursor_row,
        ),
        scroll <= minus(total_rows as int, content_height as int),
        follow_cursor && content_height > 0 && cursor_row < total_rows ==> scroll <= cursor_row
            < scroll + content_height,
{
    let max_scroll = total_rows.saturating_sub(content_height);
    let mut scroll = if scroll_offset <= max_scroll {
        scroll_offset
    } else {
        max_scroll
    };
    if follow_cursor {
        if cursor_row < scroll {
            scroll = cursor_row;
        } else if cursor_row >= scroll.saturating_add(content_height) {
            scroll = cursor_row.saturating_sub(content_height.saturating_sub(1));
        }
        if scroll > max_scroll {
            scroll = max_scroll;
        }
    }
    scroll
}

/// The scrollbar of an input box: in the last column of the content area,
/// as high as the area (one row at least). The thumb is the area's share
/// of the rows, one row at least; its top is the scroll offset mapped onto
/// the room that the thumb leaves.
pub open spec fn input_scrollbar_of(area: Rect, scroll: u16, total_rows: u16) -> ScrollbarGeometry {
    let height = if area.height < 1 {
        1
    } else {
        area.height as int
    };
    let max_scroll = minus(total_rows as int, height);
    let thumb_h = if total_rows == 0 {
        height
    } else if least(height * height, u16::MAX as int) / (total_rows as int) < 1 {
        1
    } else {
        least(height * height, u16::MAX as int) / (total_rows as int)
    };
    let room = minus(height, thumb_h);
    let thumb_top = if max_scroll == 0 {
        0
    } else {
        cap16((scroll * room) / max_scroll) as int
    };
    ScrollbarGeometry {
        bar_x: plus16(area.x as int, minus(area.width as int, 1)) as u16,
        top: area.y,
        height: height as u16,
        thumb_top: plus16(area.y as int, thumb_top) as u16,
        thumb_h: thumb_h as u16,
        max_scroll: max_scroll as u16,
    }
}

/// Computes the scrollbar of an input box and the top of its thumb on the
/// track, counted from the track's first row.
pub fn input_scrollbar(area: Rect, scroll: u16, total_rows: u16) -> (r: (ScrollbarGeometry, u16))
    ensures
        r.0 == input_scrollbar_of(area, scroll, total_rows),
        r.0.thumb_top == plus16(area.y as int, r.1 as int),
        r.0.thumb_h >= 1,
{
    let height: u16 = if area.height < 1 {
        1
    } else {
        area.height
    };
    let max_scroll = total_rows.saturating_sub(height);
    let bar_x = area.x.saturating_add(area.width.saturating_sub(1));
    assert(height * height <= 0xFFFF * 0xFFFF) by (nonlinear_arith)
        requires
            height <= 0xFFFF,
    ;
    let square: u32 = height as u32 * height as u32;
    let capped: u16 = if square > u16::MAX as u32 {
        u16::MAX
    } else {
        square as u16
    };
    let thumb_h: u16 = if total_rows == 0 {
        height
    } else {
        let raw = capped / total_rows;
        if raw < 1 {
            1
        } else {
            raw
        }
    };
    let room = height.saturating_sub(thumb_h);
    let thumb_top: u16 = if max_scroll == 0 {
        0
    } else {
        assert(scroll * room <= 0xFFFF * 0xFFFF) by (nonlinear_arith)
            requires
                scroll <= 0xFFFF,
                room <= 0xFFFF,
        ;
        let mapped: u32 = (scroll as u32 * room as u32) / (max_scroll as u32);
        if mapped > u16::MAX as u32 {
            u16::MAX
        } else {
            mapped as u16
        }
    };
    (
        ScrollbarGeometry {
            bar_x,
            top: area.y,
            height,
            thumb_top: area.y.saturating_add(thumb_top),
            thumb_h,
            max_scroll,
        },
        thumb_top,
    )
}

/// Where the cursor is shown: its row less the scroll offset and its
/// column, each kept inside the content area.
pub open spec fn cursor_screen_pos_of(content_area: Rect, cursor: (u16, u16), scroll: u16)
    -> Position {
    Position {
        x: plus16(
            content_area.x as int,
            least(cursor.1 as int, minus(content_area.width as int, 1)),
        ) as u16,
        y: plus16(
            content_area.y as int,
            least(minus(cursor.0 as int, scroll as int), minus(content_area.height as int, 1)),
        ) as u16,
    }
}

/// Computes the cell at which the cursor is shown.
pub fn cursor_screen_pos(content_area: Rect, cursor: (u16, u16), scroll: u16) -> (pos: Position)
    ensures
        pos == cursor_screen_pos_of(content_area, cursor, scroll),
{
    let row_in = cursor.0.saturating_sub(scroll);
    let last_row = content_area.height.saturating_sub(1);
    let row = if row_in <= last_row {
        row_in
    } else {
        last_row
    };
    let last_col = content_area.width.saturating_sub(1);
    let col = if cursor.1 <= last_col {
        cursor.1
    } else {
        last_col
    };
    Position { x: content_area.x.saturating_add(col), y: content_area.y.saturating_add(row) }
}

/// How a row of text with a suggestion behind it is drawn.
#[derive(Debug, Clone, Copy, PartialEq, Eq, Structural)]
pub enum RowParts {
    /// All of the row is text.
    Text,
    /// All of the row is suggestion.
    Suggestion,
    /// The row is text up to this byte offset and suggestion from it on.
    Split(usize),
}

/// The parts of the row `start .. end` where the text is `text_len` bytes
/// long and the suggestion follows it.
pub fn suggestion_row_parts(start: usize, end: usize, text_len: usize) -> (parts: RowParts)
    ensures
        parts == if end <= text_len {
            RowParts::Text
        } else if start >= text_len {
            RowParts::Suggestion
        } else {
            RowParts::Split(text_len)
        },
{
    if end <= text_len {
        RowParts::Text
    } else if start >= text_len {
        RowParts::Suggestion
    } else {
        RowParts::Split(text_len)
    }
}

/// The three pieces of a row that a shimmer runs through: what stands
/// before the shimmer, the shimmer, and what stands behind it. A piece
/// that is empty is absent.
#[derive(Debug, Clone, Copy)]
pub struct ShimmerParts {
    pub before: Option<(usize, usize)>,
    pub shimmer: Option<(usize, usize)>,
    pub after: Option<(usize, usize)>,
}

/// Cuts the row `line_start .. line_end` at the ends of the shimmer
/// `shimmer_start .. shimmer_end`.
pub fn shimmer_row_parts(
    line_start: usize,
    line_end: usize,
    shimmer_start: usize,
    shimmer_end: usize,
) -> (parts: ShimmerParts)
    ensures
        ({
            let from = if shimmer_start >= line_start {
                shimmer_start
            } else {
                line_start
            };
            let to = if shimmer_end <= line_end {
                shimmer_end
            } else {
                line_end
            };
            parts == (ShimmerParts {
                before: if line_start < from {
                    Some((line_start, from))
                } else {
                    None
                },
                shimmer: if from < to {
                    Some((from, to))
                } else {
                    None
                },
                after: if to < line_end {
                    Some((to, line_end))
                } else {
                    None
                },
            })
        }),
{
    let from = if shimmer_start >= line_start {
        shimmer_start
    } else {
        line_start
    };
    let to = if shimmer_end <= line_end {
        shimmer_end
    } else {
        line_end
    };
    ShimmerParts {
        before: if line_start < from {
            Some((line_start, from))
        } else {
            None
        },
        shimmer: if from < to {
            Some((from, to))
        } else {
            None
        },
        after: if to < line_end {
            Some((to, line_end))
        } else {
            None
        },
    }
}

/// The outcome of drawing an input box of `total_rows` rows of text: how
/// far it is scrolled, its scrollbar where one is shown, and the cell of
/// the cursor. An empty frame or area gives the scroll offset back and
/// puts the cursor at the frame's corner.
pub fn input_outcome(
    frame_area: Rect,
    area: Rect,
    content: Rect,
    total_rows: u16,
    cursor: (u16, u16),
    scroll_offset: u16,
    follow_cursor: bool,
    show_scrollbar: bool,
) -> (outcome: InputBoxOutcome)
    ensures
        outcome == if frame_area.width == 0 || frame_area.height == 0 || area.width == 0
            || area.height == 0 {
            InputBoxOutcome {
                scroll_offset,
                scrollbar: None,
                cursor_screen_pos: Position { x: frame_area.x, y: frame_area.y },
            }
        } else {
            let scroll = input_scroll_of(
                total_rows,
                content.height,
                scroll_offset,
                follow_cursor,
                cursor.0,
            ) as u16;
            InputBoxOutcome {
                scroll_offset: scroll,
                scrollbar: if show_scrollbar {
                    Some(input_scrollbar_of(content, scroll, total_rows))
                } else {
                    None
                },
                cursor_screen_pos: cursor_screen_pos_of(content, cursor, scroll),
            }
        },
{
    if frame_area.width == 0 || frame_area.height == 0 || area.width == 0 || area.height == 0 {
        return InputBoxOutcome {
            scroll_offset,
            scrollbar: None,
            cursor_screen_pos: Position { x: frame_area.x, y: frame_area.y },
        };
    }
    let scroll = input_scroll(total_rows, content.height, scroll_offset, follow_cursor, cursor.0);
    InputBoxOutcome {
        scroll_offset: scroll,
        scrollbar: if show_scrollbar {
            Some(input_scrollbar(content, scroll, total_rows).0)
        } else {
            None
        },
        cursor_screen_pos: cursor_screen_pos(content, cursor, scroll),
    }
}

/// The text of each row of `text` wrapped to `content_width`; the empty
/// text has one empty row.
pub open spec fn row_texts(text: Seq<char>, content_width: u16) -> Seq<Seq<char>> {
    let rows = rows_from(text, budget(content_width), 0);
    Seq::new(rows.len(), |i: int| text.subrange(rows[i].0, rows[i].1))
}

/// The rows of `text` wrapped to `content_width`, each as its own text.
pub fn build_text_lines(text: &str, content_width: u16) -> (lines: Vec<String>)
    ensures
        views_of(lines@) == row_texts(text@, content_width),
        lines@.len() >= 1,
{
    let chars = chars_of(text);
    let total = str_byte_len(text);
    let rows = wrap_chars(&chars, content_width).1;
    proof {
        lemma_rows_from(chars@, budget(content_width), 0);
    }
    let ghost wanted = rows_from(chars@, budget(content_width), 0);
    let mut lines: Vec<String> = Vec::new();
    let mut k: usize = 0;
    while k < rows.len()
        invariant
            k <= rows.len(),
            chars@ == text@,
            wanted == rows_from(chars@, budget(content_width), 0),
            spans(rows@) == wanted,
            forall|i: int|
                0 <= i < wanted.len() ==> 0 <= (#[trigger] wanted[i]).0 <= wanted[i].1
                    <= chars@.len(),
            lines@.len() == k,
            forall|i: int|
                0 <= i < k ==> (#[trigger] lines@[i])@ == text@.subrange(wanted[i].0, wanted[i].1),
        decreases rows.len() - k,
    {
        proof {
            assert(spans(rows@)[k as int] == wanted[k as int]);
        }
        lines.push(string_of(&chars, rows[k].0, rows[k].1));
        k = k + 1;
    }
    proof {
        assert(spans(rows@).len() == rows@.len());
        assert(views_of(lines@) =~= row_texts(text@, content_width));
    }
    lines
}

/// A shimmer over the bytes `start .. end` of a placeholder.
#[derive(Debug, Clone, Copy, PartialEq, Eq, Structural)]
pub struct ShimmerSpec {
    pub start: usize,
    pub end: usize,
}

/// What an input box shows as its content.
#[derive(Debug, Clone, Copy, PartialEq, Eq, Structural)]
pub enum InputContent {
    /// The placeholder, plainly.
    Placeholder,
    /// The placeholder with a shimmer over these bytes of it.
    PlaceholderShimmer { start: usize, end: usize },
    /// The text with the suggestion behind it.
    Suggestion,
    /// The text.
    Text,
}

/// Chooses the content of an input box: the placeholder where the text is
/// empty and there is one, with its shimmer where that, cut to the
/// placeholder's length, is not empty; else the text, with the suggestion
/// where there is one that is not empty.
pub fn input_content(
    text_empty: bool,
    placeholder_len: Option<usize>,
    shimmer: Option<ShimmerSpec>,
    has_suggestion: bool,
) -> (content: InputContent)
    ensures
        content == match (text_empty, placeholder_len) {
            (true, Some(len)) => match shimmer {
                Some(spec) => {
                    let from = if spec.start <= len {
                        spec.start
                    } else {
                        len
                    };
                    let to = if spec.end <= len {
                        spec.end
                    } else {
                        len
                    };
                    if from < to {
                        InputContent::PlaceholderShimmer { start: from, end: to }
                    } else {
                        InputContent::Placeholder
                    }
                },
                None => InputContent::Placeholder,
            },
            _ => if has_suggestion {
                InputContent::Suggestion
            } else {
                InputContent::Text
            },
        },
{
    if text_empty {
        if let Some(len) = placeholder_len {
            if let Some(spec) = shimmer {
                let from = if spec.start <= len {
                    spec.start
                } else {
                    len
                };
                let to = if spec.end <= len {
                    spec.end
                } else {
                    len
                };
                if from < to {
                    return InputContent::PlaceholderShimmer { start: from, end: to };
                }
            }
            return InputContent::Placeholder;
        }
    }
    if has_suggestion {
        InputContent::Suggestion
    } else {
        InputContent::Text
    }
}

/// Rows of the content as the input box counts them: one at least, no
/// more than a `u16` holds.
pub fn input_total_rows(rows: usize) -> (total: u16)
    ensures
        total == if rows == 0 {
            1
        } else if rows > u16::MAX {
            u16::MAX as int
        } else {
            rows as int
        },
{
    if rows == 0 {
        1
    } else if rows > u16::MAX as usize {
        u16::MAX
    } else {
        rows as u16
    }
}

/// The style of a placeholder: the override colour where there is one,
/// else the colour of its element (tertiary where none is named); on the
/// background `bg`; bold where asked, dim otherwise.
pub open spec fn placeholder_style_of(
    theme: &Theme,
    element: Option<ThemeElement>,
    color_override: Option<(u8, u8, u8)>,
    bold: bool,
    bg: Color,
) -> CellStyle {
    let base = match color_override {
        Some(rgb) => CellStyle {
            fg: Some(Color::Rgb { r: rgb.0, g: rgb.1, b: rgb.2 }),
            ..CellStyle::spec_plain()
        },
        None => theme.spec_style(
            match element {
                Some(e) => e,
                None => ThemeElement::Tertiary,
            },
        ),
    };
    CellStyle { bg: Some(bg), bold: base.bold || bold, dim: base.dim || !bold, ..base }
}

/// The style of a placeholder.
pub fn placeholder_style(
    theme: &Theme,
    element: Option<ThemeElement>,
    color_override: Option<(u8, u8, u8)>,
    bold: bool,
    bg: Color,
) -> (style: CellStyle)
    ensures
        style == placeholder_style_of(theme, element, color_override, bold, bg),
{
    let base = match color_override {
        Some(rgb) => CellStyle::plain().fg(Color::Rgb { r: rgb.0, g: rgb.1, b: rgb.2 }),
        None => theme.style(
            match element {
                Some(e) => e,
                None => ThemeElement::Tertiary,
            },
        ),
    };
    let on_bg = base.bg(bg);
    if bold {
        on_bg.bold()
    } else {
        on_bg.dim()
    }
}

/// The styles of an input box on the background `bg`: the base style,
/// and the style of its text, which is the base style unless the caller
/// names another.
pub fn input_styles(theme: &Theme, bg: Color, text_style: Option<CellStyle>) -> (styles: (
    CellStyle,
    CellStyle,
))
    ensures
        styles.0 == (CellStyle { bg: Some(bg), ..theme.spec_style(ThemeElement::Base) }),
        styles.1 == match text_style {
            Some(s) => CellStyle { bg: Some(bg), ..s },
            None => styles.0,
        },
{
    let base = theme.style(ThemeElement::Base).bg(bg);
    let text = match text_style {
        Some(s) => s.bg(bg),
        None => base,
    };
    (base, text)
}

/// The style of a suggestion that names none: secondary, dim, on the
/// background.
pub fn default_suggestion_style(theme: &Theme, bg: Color) -> (style: CellStyle)
    ensures
        style == (CellStyle { bg: Some(bg), dim: true, ..theme.spec_style(ThemeElement::Secondary) }),
{
    theme.style(ThemeElement::Secondary).bg(bg).dim()
}

/// The style of the prompt: bold on the background, in the agent's colour
/// where an agent is named, in the primary colour otherwise.
pub fn prompt_style(
    theme: &Theme,
    bg: Color,
    agent: Option<&str>,
    agent_color: Option<(u8, u8, u8)>,
) -> (style: CellStyle)
    ensures
        style == match agent {
            Some(a) => CellStyle {
                fg: Some(theme.spec_agent_color(a@, agent_color)),
                bg: Some(bg),
                bold: true,
                ..CellStyle::spec_plain()
            },
            None => CellStyle { bg: Some(bg), bold: true, ..theme.spec_style(ThemeElement::Primary) },
        },
{
    match agent {
        Some(a) => CellStyle::plain().fg(theme.agent_color(a, agent_color)).bg(bg).bold(),
        None => theme.style(ThemeElement::Primary).bg(bg).bold(),
    }
}

/// The style of the hint at the right of the input: the info colour on
/// the background, dim, bold and italic.
pub fn hint_style(theme: &Theme, bg: Color) -> (style: CellStyle)
    ensures
        style == (CellStyle {
            bg: Some(bg),
            dim: true,
            bold: true,
            italic: true,
            ..theme.spec_style(ThemeElement::Info)
        }),
{
    theme.style(ThemeElement::Info).bg(bg).dim().bold().italic()
}

/// The prompt as it is drawn: the padding, the prompt, the gap.
pub fn prompt_text(prompt: &str, padding_left: u16, gap: u16) -> (text: String)
    ensures
        text@ == repeated(' ', padding_left as nat) + prompt@ + repeated(' ', gap as nat),
{
    let mut text = String::new();
    push_repeated(&mut text, ' ', padding_left as usize);
    text.append(prompt);
    push_repeated(&mut text, ' ', gap as usize);
    proof {
        assert(text@ =~= repeated(' ', padding_left as nat) + prompt@ + repeated(' ', gap as nat));
    }
    text
}

/// Index of the first character at or after `k` that is not white space.
pub open spec fn first_mark(text: Seq<char>, k: int) -> Option<int>
    decreases text.len() - k,
{
    if k < 0 || k >= text.len() {
        None
    } else if !is_space(text[k]) {
        Some(k)
    } else {
        first_mark(text, k + 1)
    }
}

/// Index of the character of the prompt that is highlighted: the first
/// that is not white space.
pub fn prompt_highlight_index(text: &str) -> (idx: Option<usize>)
    ensures
        match idx {
            Some(i) => first_mark(text@, 0) == Some(i as int),
            None => first_mark(text@, 0) is None,
        },
{
    let chars = chars_of(text);
    let mut k: usize = 0;
    while k < chars.len()
        invariant
            k <= chars.len(),
            chars@ == text@,
            first_mark(text@, 0) == first_mark(text@, k as int),
        decreases chars.len() - k,
    {
        if !chars[k].is_whitespace() {
            return Some(k);
        }
        k = k + 1;
    }
    None
}

/// Number of cells of a row of `count` characters that are drawn from
/// the left edge of `area` on: those that lie before its right edge.
pub fn cells_drawn(area: Rect, count: usize) -> (cells: usize)
    ensures
        cells == least(count as int, plus16(area.x as int, area.width as int) - area.x),
{
    let room = (area.x.saturating_add(area.width) - area.x) as usize;
    if count < room {
        count
    } else {
        room
    }
}

/// Column at which a hint of `hint_cols` columns starts, flush right in
/// the content area, one column kept free for a scrollbar. `None` where
/// nothing is drawn: an empty hint or area, or a hint that does not fit.
pub fn hint_start(content_area: Rect, hint_cols: u16, has_scrollbar: bool) -> (start: Option<u16>)
    ensures
        start == {
            let available = minus(
                content_area.width as int,
                if has_scrollbar {
                    1
                } else {
                    0
                },
            );
            if hint_cols == 0 || content_area.width == 0 || content_area.height == 0 || hint_cols
                > available {
                None
            } else {
                Some(plus16(content_area.x as int, available - hint_cols) as u16)
            }
        },
{
    if content_area.width == 0 || content_area.height == 0 {
        return None;
    }
    let reserved: u16 = if has_scrollbar {
        1
    } else {
        0
    };
    let available = content_area.width.saturating_sub(reserved);
    if hint_cols == 0 || hint_cols > available {
        return None;
    }
    Some(content_area.x.saturating_add(available - hint_cols))
}

} // verus!
