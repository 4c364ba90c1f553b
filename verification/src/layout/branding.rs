//! The logo and the version line of welcome screens and sidebars.

use crate::components::dialog_shell::{split_rows, RowConstraint};
use crate::layout::section_stack::{line_view, section_view, text_line, StyledLine};
use crate::primitives::chars::{str_columns, table_str_width};
use crate::primitives::geom::Rect;
use crate::theme::{CellStyle, Theme, ThemeElement};
use vstd::prelude::*;
use vstd::string::*;

verus! {

/// Compact 3-row logo for welcome screens and headers.
pub const LOGO_COMPACT: [&'static str; 3] = [
    "▄  ▄  ▄▄  ▄▄▄  ▄▄▄  ▄▄▄  ▄▄  ▄▄▄  ▄▄▄",
    "█▀▄█ █  █ █  █ █▄  █    █  █ █  █ █▄ ",
    "▀  ▀  ▀▀  ▀▀▀  ▀▀▀  ▀▀▀  ▀▀  ▀▀▀  ▀▀▀",
];

/// Extended 6-row stacked logo for sidebar display.
pub const LOGO_STACKED: [&'static str; 6] = [
    "▄  ▄  ▄▄  ▄▄▄  ▄▄▄",
    "█▀▄█ █  █ █  █ █▄ ",
    "▀  ▀  ▀▀  ▀▀▀  ▀▀▀",
    " ▄▄▄  ▄▄  ▄▄▄  ▄▄▄",
    "█    █  █ █  █ █▄ ",
    " ▀▀▀  ▀▀  ▀▀▀  ▀▀▀",
];

/// Height of the compact logo in terminal rows.
pub const LOGO_COMPACT_HEIGHT: u16 = 3;

/// Height of the stacked logo in terminal rows.
pub const LOGO_STACKED_HEIGHT: u16 = 6;

/// The style of the logo: primary, bold.
pub open spec fn logo_style(theme: &Theme) -> CellStyle {
    CellStyle { bold: true, ..theme.spec_style(ThemeElement::Primary) }
}

/// The style of the version: primary, dim.
pub open spec fn version_style(theme: &Theme) -> CellStyle {
    CellStyle { dim: true, ..theme.spec_style(ThemeElement::Primary) }
}

/// `text` with one blank behind it where the text and the blank fit in
/// `max_width` columns; the text alone otherwise.
pub open spec fn right_padded(text: Seq<char>, max_width: u16) -> Seq<char> {
    if str_columns(text) + 1 <= max_width {
        text.push(' ')
    } else {
        text
    }
}

/// `text`, with one blank behind it where both fit in `max_width` columns.
pub fn pad_right(text: &str, max_width: u16) -> (padded: String)
    ensures
        padded@ == right_padded(text@, max_width),
{
    let mut padded = String::new();
    padded.append(text);
    if table_str_width(text) < max_width as usize {
        padded.push(' ');
    }
    proof {
        assert(padded@ =~= right_padded(text@, max_width));
    }
    padded
}

/// Build styled logo lines from a logo definition.
pub fn logo_lines(theme: &Theme, rows: &[&str]) -> (lines: Vec<StyledLine>)
    ensures
        section_view(lines@) == Seq::new(
            rows@.len(),
            |i: int| seq![(rows@[i]@, logo_style(theme))],
        ),
{
    let mut lines: Vec<StyledLine> = Vec::new();
    let mut k: usize = 0;
    while k < rows.len()
        invariant
            k <= rows.len(),
            lines@.len() == k,
            forall|i: int|
                0 <= i < k ==> line_view(#[trigger] lines@[i]) == seq![
                    (rows@[i]@, logo_style(theme)),
                ],
        decreases rows.len() - k,
    {
        let mut text = String::new();
        text.append(rows[k]);
        proof {
            assert(text@ =~= rows@[k as int]@);
        }
        lines.push(text_line(text, theme.primary_style().bold()));
        k = k + 1;
    }
    proof {
        assert(section_view(lines@) =~= Seq::new(
            rows@.len(),
            |i: int| seq![(rows@[i]@, logo_style(theme))],
        ));
    }
    lines
}

/// Build styled logo lines with right padding for sidebar alignment.
pub fn logo_lines_padded(theme: &Theme, rows: &[&str], max_width: u16) -> (lines: Vec<StyledLine>)
    ensures
        section_view(lines@) == Seq::new(
            rows@.len(),
            |i: int| seq![(right_padded(rows@[i]@, max_width), logo_style(theme))],
        ),
{
    let mut lines: Vec<StyledLine> = Vec::new();
    let mut k: usize = 0;
    while k < rows.len()
        invariant
            k <= rows.len(),
            lines@.len() == k,
            forall|i: int|
                0 <= i < k ==> line_view(#[trigger] lines@[i]) == seq![
                    (right_padded(rows@[i]@, max_width), logo_style(theme)),
                ],
        decreases rows.len() - k,
    {
        lines.push(text_line(pad_right(rows[k], max_width), theme.primary_style().bold()));
        k = k + 1;
    }
    proof {
        assert(section_view(lines@) =~= Seq::new(
            rows@.len(),
            |i: int| seq![(right_padded(rows@[i]@, max_width), logo_style(theme))],
        ));
    }
    lines
}

/// Build a version string line.
pub fn version_line(theme: &Theme, version: &str) -> (line: StyledLine)
    ensures
        line_view(line) == seq![(version@, version_style(theme))],
{
    let mut text = String::new();
    text.append(version);
    proof {
        assert(text@ =~= version@);
    }
    text_line(text, theme.primary_style().dim())
}

/// Build a version string line with right padding.
pub fn version_line_padded(theme: &Theme, version: &str, max_width: u16) -> (line: StyledLine)
    ensures
        line_view(line) == seq![(right_padded(version@, max_width), version_style(theme))],
{
    text_line(pad_right(version, max_width), theme.primary_style().dim())
}

/// The bands of a centred logo with its version: the rows of the compact
/// logo, and one row for the version below them. `None` for an area
/// without cells. Both bands have the area's column and width.
pub fn logo_centered_areas(area: Rect) -> (bands: Option<(Rect, Rect)>)
    ensures
        bands is None == (area.width == 0 || area.height == 0),
        bands matches Some(b) ==> b.0.x == area.x && b.0.width == area.width && b.1.x == area.x
            && b.1.width == area.width,
{
    if area.width == 0 || area.height == 0 {
        return None;
    }
    let mut wanted: Vec<RowConstraint> = Vec::new();
    wanted.push(RowConstraint::Length(LOGO_COMPACT_HEIGHT));
    wanted.push(RowConstraint::Length(1));
    wanted.push(RowConstraint::Min(0));
    let rows = split_rows(area, &wanted);
    Some((rows[0], rows[1]))
}

} // verus!
