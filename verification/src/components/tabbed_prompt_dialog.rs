//! Dialogs with a tab bar, an optional title and an optional search bar
//! above their body.

use crate::components::dialog_shell::{
    split_columns, split_rows, DialogBounds, Padding, RowConstraint,
};
use crate::layout::visual::cap16;
use crate::primitives::chars::chars_of;
use crate::primitives::geom::Rect;
use crate::primitives::scrollbar::{minus, plus16};
use crate::primitives::strings::{ellipsized, truncate_with_ellipsis};
use crate::components::text_input::TextInput;
use crate::layout::fuzzy::{trim, trimmed};
use vstd::prelude::*;
use vstd::string::*;

verus! {

/// The search bar of a dialog: its input, and the title above it.
pub struct SearchSpec<'a> {
    pub input: &'a TextInput,
    pub title: Option<&'a str>,
}

/// Rows of the tab bar.
pub const TAB_BAR_ROWS: u16 = 1;

/// Rows of the title.
pub const TITLE_ROWS: u16 = 1;

/// Rows of the search bar.
pub const SEARCH_ROWS: u16 = 3;

/// Rows of the footer.
pub const FOOTER_ROWS: u16 = 2;

/// Rows of the header: the tab bar, the title where there is one, the
/// search bar where there is one.
pub fn header_rows(has_search: bool, has_title: bool) -> (rows: u16)
    ensures
        rows == 1 + if has_title {
            1int
        } else {
            0int
        } + if has_search {
            3int
        } else {
            0int
        },
{
    let title: u16 = if has_title {
        TITLE_ROWS
    } else {
        0
    };
    let search: u16 = if has_search {
        SEARCH_ROWS
    } else {
        0
    };
    TAB_BAR_ROWS + title + search
}

/// The bounds of a prompt dialog with title and search.
pub fn default_prompt_dialog_opts() -> (bounds: DialogBounds)
    ensures
        bounds == (DialogBounds {
            max_width: 60,
            max_height: 20,
            header_rows: 5,
            footer_rows: 2,
            padding: Padding { left: 1, right: 1, top: 1, bottom: 1 },
        }),
{
    DialogBounds {
        max_width: 60,
        max_height: 20,
        header_rows: 5,
        footer_rows: 2,
        padding: Padding { left: 1, right: 1, top: 1, bottom: 1 },
    }
}

/// The bounds of a prompt dialog: sixty columns by twenty rows at most,
/// one cell of padding, and the header that search and title need.
pub fn prompt_dialog_opts(has_search: bool, has_title: bool) -> (bounds: DialogBounds)
    ensures
        bounds == (DialogBounds {
            max_width: 60,
            max_height: 20,
            header_rows: (1 + if has_title {
                1int
            } else {
                0int
            } + if has_search {
                3int
            } else {
                0int
            }) as u16,
            footer_rows: 2,
            padding: Padding { left: 1, right: 1, top: 1, bottom: 1 },
        }),
{
    DialogBounds {
        max_width: 60,
        max_height: 20,
        header_rows: header_rows(has_search, has_title),
        footer_rows: FOOTER_ROWS,
        padding: Padding::new(1, 1, 1, 1),
    }
}

/// Index, among the bands of the header, of the search bar: behind the tab
/// bar, and behind the title where there is one.
pub fn search_band(has_title: bool) -> (idx: usize)
    ensures
        idx == if has_title {
            2int
        } else {
            1int
        },
{
    if has_title {
        2
    } else {
        1
    }
}

/// The hints shown at the right of the title: the hints without the white
/// space at their ends, cut to the columns that the title leaves free,
/// one column kept between the two.
pub open spec fn title_hints_of(title: Seq<char>, right_hints: Seq<char>, row_width: u16) -> Seq<
    char,
> {
    ellipsized(
        trimmed(right_hints),
        minus(row_width as int, plus16(cap16(title.len() as int) as int, 1)) as nat,
    )
}

/// The hints shown at the right of the title in a row of `row_width`
/// columns; empty where there is no room, or nothing to show.
pub fn title_hints(title: &str, right_hints: &str, row_width: u16) -> (hints: String)
    ensures
        hints@ == title_hints_of(title@, right_hints@, row_width),
{
    let hint = trim(right_hints);
    let count = chars_of(title).len();
    let title_width: u16 = if count > u16::MAX as usize {
        u16::MAX
    } else {
        count as u16
    };
    let available = row_width.saturating_sub(title_width.saturating_add(1));
    truncate_with_ellipsis(hint.as_str(), available as usize)
}

/// The row of the footer that the help text is drawn in, from the two
/// bands that the split of the footer gave: the second band for a footer
/// of more than one row, the footer itself otherwise.
pub fn footer_row_of(footer: Rect, rows: &Vec<Rect>) -> (area: Rect)
    requires
        rows@.len() == 2,
    ensures
        area == if footer.height > 1 {
            rows@[1]
        } else {
            footer
        },
{
    if footer.height > 1 {
        rows[1]
    } else {
        footer
    }
}

/// The row of the footer that the help text is drawn in: the footer
/// itself where it has one row or none; else the band of one row asked
/// for at its bottom, with the footer's column and width.
pub fn footer_text_area(footer: Rect) -> (area: Rect)
    ensures
        footer.height <= 1 ==> area == footer,
        area.x == footer.x,
        area.width == footer.width,
{
    if footer.height > 1 {
        let mut wanted: Vec<RowConstraint> = Vec::new();
        wanted.push(RowConstraint::Min(0));
        wanted.push(RowConstraint::Length(1));
        let rows = split_rows(footer, &wanted);
        footer_row_of(footer, &rows)
    } else {
        footer
    }
}

/// The bands of the header: the tab bar, then the title where there is
/// one, then the search bar where there is one. Each has the header's
/// column and width.
pub fn prompt_header_rows(header: Rect, has_search: bool, has_title: bool) -> (bands: Vec<Rect>)
    ensures
        bands@.len() == 1 + if has_title {
            1int
        } else {
            0int
        } + if has_search {
            1int
        } else {
            0int
        },
        forall|i: int|
            0 <= i < bands@.len() ==> (#[trigger] bands@[i]).x == header.x && bands@[i].width
                == header.width,
{
    let mut wanted: Vec<RowConstraint> = Vec::new();
    wanted.push(RowConstraint::Length(TAB_BAR_ROWS));
    if has_title {
        wanted.push(RowConstraint::Length(TITLE_ROWS));
    }
    if has_search {
        wanted.push(RowConstraint::Length(SEARCH_ROWS));
    }
    split_rows(header, &wanted)
}

/// The title row cut for hints of `hint_chars` characters at its right:
/// the title's part, and the part asked for the hints. Both have the
/// row's line and height. Without hints the title has the whole row.
pub fn title_row_areas(title_row: Rect, hint_chars: usize) -> (areas: (Rect, Option<Rect>))
    ensures
        hint_chars == 0 ==> areas == (title_row, None::<Rect>),
        hint_chars > 0 ==> areas.1 is Some && areas.0.y == title_row.y && areas.0.height
            == title_row.height && areas.1->0.y == title_row.y && areas.1->0.height
            == title_row.height,
{
    if hint_chars == 0 {
        return (title_row, None);
    }
    let hint_width: u16 = if hint_chars > u16::MAX as usize {
        u16::MAX
    } else {
        hint_chars as u16
    };
    let mut wanted: Vec<RowConstraint> = Vec::new();
    wanted.push(RowConstraint::Min(0));
    wanted.push(RowConstraint::Length(hint_width));
    let columns = split_columns(title_row, &wanted);
    (columns[0], Some(columns[1]))
}

} // verus!
