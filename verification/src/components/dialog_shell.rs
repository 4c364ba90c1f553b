//! The shell of a dialog: its area inside a parent, and the bands for
//! header, body and footer that the area is split into.

use crate::primitives::geom::Rect;
use crate::primitives::scrollbar::{minus, plus16};
use ratatui::layout::{Constraint, Direction, Layout};
use ratatui::widgets::{Block, Borders};
use vstd::prelude::*;

verus! {

/// Space kept free inside the four edges of an area.
#[derive(Debug, Clone, Copy, PartialEq, Eq, Structural)]
pub struct Padding {
    pub left: u16,
    pub right: u16,
    pub top: u16,
    pub bottom: u16,
}

impl Padding {
    pub fn new(left: u16, right: u16, top: u16, bottom: u16) -> (p: Self)
        ensures
            p == (Padding { left, right, top, bottom }),
    {
        Padding { left, right, top, bottom }
    }
}

/// What a band of rows asks for: exactly so many rows, or at least so
/// many.
#[derive(Debug, Clone, Copy, PartialEq, Eq, Structural)]
pub enum RowConstraint {
    Length(u16),
    Min(u16),
}

/// Limits and bands of a dialog. The share of the parent that the dialog
/// asks for is given beside it, already scaled to cells.
#[derive(Debug, Clone, Copy, PartialEq, Eq, Structural)]
pub struct DialogBounds {
    pub max_width: u16,
    pub max_height: u16,
    pub header_rows: u16,
    pub footer_rows: u16,
    pub padding: Padding,
}

impl Default for DialogBounds {
    /// No limits, no header, no footer, no padding.
    fn default() -> (b: Self)
        ensures
            b == (DialogBounds {
                max_width: u16::MAX,
                max_height: u16::MAX,
                header_rows: 0,
                footer_rows: 0,
                padding: Padding { left: 0, right: 0, top: 0, bottom: 0 },
            }),
    {
        DialogBounds {
            max_width: u16::MAX,
            max_height: u16::MAX,
            header_rows: 0,
            footer_rows: 0,
            padding: Padding::new(0, 0, 0, 0),
        }
    }
}

/// The area of a dialog and its three bands.
#[derive(Debug, Clone, Copy, PartialEq, Eq, Structural)]
pub struct DialogLayout {
    pub area: Rect,
    pub header: Rect,
    pub body: Rect,
    pub footer: Rect,
}

/// The direction in which an area is cut.
#[derive(Debug, Clone, Copy, PartialEq, Eq, Structural)]
pub enum Axis {
    /// Into bands of rows, one below the other.
    Vertical,
    /// Into bands of columns, side by side.
    Horizontal,
}

/// `Layout::split` of ratatui: the area cut into one band for each
/// constraint. Cut into rows, each band has the area's column and width;
/// cut into columns, each has the area's row and height. Where along the
/// axis a band lies is the solver's choice.
#[verifier::external_body]
pub(crate) fn split_area(area: Rect, axis: Axis, constraints: &Vec<RowConstraint>) -> (bands: Vec<
    Rect,
>)
    ensures
        bands@.len() == constraints@.len(),
        axis == Axis::Vertical ==> forall|i: int|
            0 <= i < bands@.len() ==> (#[trigger] bands@[i]).x == area.x && bands@[i].width
                == area.width,
        axis == Axis::Horizontal ==> forall|i: int|
            0 <= i < bands@.len() ==> (#[trigger] bands@[i]).y == area.y && bands@[i].height
                == area.height,
{
    let wanted = constraints.iter().map(|c| match c {
        RowConstraint::Length(n) => Constraint::Length(*n),
        RowConstraint::Min(n) => Constraint::Min(*n),
    });
    let direction = match axis {
        Axis::Vertical => Direction::Vertical,
        Axis::Horizontal => Direction::Horizontal,
    };
    let parent =
        ratatui::layout::Rect { x: area.x, y: area.y, width: area.width, height: area.height };
    let bands = Layout::default().direction(direction).constraints(wanted).split(parent);
    bands.iter().map(|r| Rect { x: r.x, y: r.y, width: r.width, height: r.height }).collect()
}

/// The area cut into one band of rows for each constraint. Each band has
/// the area's column and width.
pub fn split_rows(area: Rect, constraints: &Vec<RowConstraint>) -> (rows: Vec<Rect>)
    ensures
        rows@.len() == constraints@.len(),
        forall|i: int|
            0 <= i < rows@.len() ==> (#[trigger] rows@[i]).x == area.x && rows@[i].width
                == area.width,
{
    split_area(area, Axis::Vertical, constraints)
}

/// The area cut into one band of columns for each constraint. Each band
/// has the area's row and height.
pub fn split_columns(area: Rect, constraints: &Vec<RowConstraint>) -> (columns: Vec<Rect>)
    ensures
        columns@.len() == constraints@.len(),
        forall|i: int|
            0 <= i < columns@.len() ==> (#[trigger] columns@[i]).y == area.y && columns@[i].height
                == area.height,
{
    split_area(area, Axis::Horizontal, constraints)
}

/// `Block::inner` of ratatui for a block without title, with all four
/// borders or none, and with this padding: the area inside the border,
/// its corner moved in by the padding at the left and the top, its sides
/// shortened by the padding of both edges. The padding of two opposite
/// edges must fit in a `u16` together.
#[verifier::external_body]
pub(crate) fn block_inner(area: Rect, bordered: bool, padding: Padding) -> (inner: Rect)
    requires
        padding.left + padding.right <= u16::MAX,
        padding.top + padding.bottom <= u16::MAX,
    ensures
        inner == block_inner_of(area, bordered, padding),
{
    let parent =
        ratatui::layout::Rect { x: area.x, y: area.y, width: area.width, height: area.height };
    let borders = if bordered { Borders::ALL } else { Borders::NONE };
    let pad =
        ratatui::widgets::Padding::new(padding.left, padding.right, padding.top, padding.bottom);
    let r = Block::default().borders(borders).padding(pad).inner(parent);
    Rect { x: r.x, y: r.y, width: r.width, height: r.height }
}

/// The area inside a block: inside its border where it has one, then
/// inside its padding.
pub open spec fn block_inner_of(area: Rect, bordered: bool, padding: Padding) -> Rect {
    let within = if bordered {
        inside_border(area)
    } else {
        area
    };
    Rect {
        x: plus16(within.x as int, padding.left as int) as u16,
        y: plus16(within.y as int, padding.top as int) as u16,
        width: minus(within.width as int, padding.left + padding.right) as u16,
        height: minus(within.height as int, padding.top + padding.bottom) as u16,
    }
}

/// The area inside the border of a block with all four borders.
fn bordered_inner(area: Rect) -> (inner: Rect)
    ensures
        inner == inside_border(area),
{
    block_inner(area, true, Padding::new(0, 0, 0, 0))
}

/// The area inside a block with all four borders or none, and with this
/// padding.
pub fn block_area(area: Rect, bordered: bool, padding: Padding) -> (inner: Rect)
    requires
        padding.left + padding.right <= u16::MAX,
        padding.top + padding.bottom <= u16::MAX,
    ensures
        inner == block_inner_of(area, bordered, padding),
{
    block_inner(area, bordered, padding)
}

/// The area inside a border of one cell.
pub open spec fn inside_border(area: Rect) -> Rect {
    Rect {
        x: if area.x + 1 <= plus16(area.x as int, area.width as int) {
            (area.x + 1) as u16
        } else {
            plus16(area.x as int, area.width as int) as u16
        },
        y: if area.y + 1 <= plus16(area.y as int, area.height as int) {
            (area.y + 1) as u16
        } else {
            plus16(area.y as int, area.height as int) as u16
        },
        width: minus(area.width as int, 2) as u16,
        height: minus(area.height as int, 2) as u16,
    }
}

/// Offset that centres an item in a container; zero where the item is the
/// larger.
pub fn center_position(container_size: u16, item_size: u16) -> (offset: u16)
    ensures
        offset == minus(container_size as int, item_size as int) / 2,
{
    container_size.saturating_sub(item_size) / 2
}

/// `x` brought into `lo ..= hi`.
pub open spec fn clamped(x: int, lo: int, hi: int) -> int {
    if x < lo {
        lo
    } else if x > hi {
        hi
    } else {
        x
    }
}

/// The area of a dialog in `parent`: the wanted size, brought within its
/// limits, centred.
pub open spec fn dialog_area(
    parent: Rect,
    wanted_width: u16,
    wanted_height: u16,
    min_width: u16,
    max_width: u16,
    min_height: u16,
    max_height: u16,
) -> Rect {
    let width = clamped(wanted_width as int, min_width as int, max_width as int);
    let height = clamped(wanted_height as int, min_height as int, max_height as int);
    Rect {
        x: plus16(parent.x as int, minus(parent.width as int, width) / 2) as u16,
        y: plus16(parent.y as int, minus(parent.height as int, height) / 2) as u16,
        width: width as u16,
        height: height as u16,
    }
}

/// Computes the area of a dialog in `parent` from the size that it asks
/// for, already scaled to cells, and its limits.
pub fn calculate_dialog_area_clamped(
    parent: Rect,
    wanted_width: u16,
    wanted_height: u16,
    min_width: u16,
    max_width: u16,
    min_height: u16,
    max_height: u16,
) -> (area: Rect)
    requires
        min_width <= max_width,
        min_height <= max_height,
    ensures
        area == dialog_area(
            parent,
            wanted_width,
            wanted_height,
            min_width,
            max_width,
            min_height,
            max_height,
        ),
{
    let width = if wanted_width < min_width {
        min_width
    } else if wanted_width > max_width {
        max_width
    } else {
        wanted_width
    };
    let height = if wanted_height < min_height {
        min_height
    } else if wanted_height > max_height {
        max_height
    } else {
        wanted_height
    };
    Rect {
        x: parent.x.saturating_add(center_position(parent.width, width)),
        y: parent.y.saturating_add(center_position(parent.height, height)),
        width,
        height,
    }
}

/// A dialog drawn inline takes the full width of its parent: the wanted
/// width and the limit both become the parent's width. Else both stay.
pub fn apply_inline_overrides(
    bounds: DialogBounds,
    wanted_width: u16,
    parent: Rect,
    inline: bool,
) -> (r: (DialogBounds, u16))
    ensures
        r.0 == if inline {
            DialogBounds { max_width: parent.width, ..bounds }
        } else {
            bounds
        },
        r.1 == if inline {
            parent.width
        } else {
            wanted_width
        },
{
    if inline {
        (DialogBounds { max_width: parent.width, ..bounds }, parent.width)
    } else {
        (bounds, wanted_width)
    }
}

/// The area without its padding.
pub open spec fn padded(area: Rect, padding: Padding) -> Rect {
    Rect {
        x: plus16(area.x as int, padding.left as int) as u16,
        y: plus16(area.y as int, padding.top as int) as u16,
        width: minus(area.width as int, plus16(padding.left as int, padding.right as int)) as u16,
        height: minus(
            area.height as int,
            plus16(padding.top as int, padding.bottom as int),
        ) as u16,
    }
}

/// Takes the padding off an area.
pub fn apply_padding(area: Rect, padding: Padding) -> (inner: Rect)
    ensures
        inner == padded(area, padding),
{
    let horizontal = padding.left.saturating_add(padding.right);
    let vertical = padding.top.saturating_add(padding.bottom);
    Rect {
        x: area.x.saturating_add(padding.left),
        y: area.y.saturating_add(padding.top),
        width: area.width.saturating_sub(horizontal),
        height: area.height.saturating_sub(vertical),
    }
}

/// The bands are cut from `inner`: they have its column and width.
pub open spec fn bands_of(layout: DialogLayout, inner: Rect) -> bool {
    &&& layout.header.x == inner.x && layout.header.width == inner.width
    &&& layout.body.x == inner.x && layout.body.width == inner.width
    &&& layout.footer.x == inner.x && layout.footer.width == inner.width
}

/// The layout of a dialog from its area and the three bands that the
/// split of its inside gave.
pub fn layout_from_rows(area: Rect, rows: &Vec<Rect>) -> (layout: DialogLayout)
    requires
        rows@.len() == 3,
    ensures
        layout == (DialogLayout {
            area,
            header: rows@[0],
            body: rows@[1],
            footer: rows@[2],
        }),
{
    DialogLayout { area, header: rows[0], body: rows[1], footer: rows[2] }
}

fn three_bands(header_rows: u16, footer_rows: u16) -> (c: Vec<RowConstraint>)
    ensures
        c@ == seq![
            RowConstraint::Length(header_rows),
            RowConstraint::Min(0),
            RowConstraint::Length(footer_rows),
        ],
{
    let mut c: Vec<RowConstraint> = Vec::new();
    c.push(RowConstraint::Length(header_rows));
    c.push(RowConstraint::Min(0));
    c.push(RowConstraint::Length(footer_rows));
    proof {
        assert(c@ =~= seq![
            RowConstraint::Length(header_rows),
            RowConstraint::Min(0),
            RowConstraint::Length(footer_rows),
        ]);
    }
    c
}

/// Splits a fixed area into header, body and footer, without centring.
#[must_use]
pub fn compute_fixed(area: Rect, header_rows: u16, footer_rows: u16) -> (layout: DialogLayout)
    ensures
        layout.area == area,
        bands_of(layout, area),
{
    let rows = split_rows(area, &three_bands(header_rows, footer_rows));
    layout_from_rows(area, &rows)
}

/// Computes a centred dialog in `parent`: its area from the wanted size
/// and the limits, and the three bands of the area inside the padding.
#[must_use]
pub fn compute_centered(
    parent: Rect,
    bounds: DialogBounds,
    wanted_width: u16,
    wanted_height: u16,
    inline: bool,
) -> (layout: DialogLayout)
    ensures
        layout.area == dialog_area(
            parent,
            if inline {
                parent.width
            } else {
                wanted_width
            },
            wanted_height,
            0,
            if inline {
                parent.width
            } else {
                bounds.max_width
            },
            0,
            bounds.max_height,
        ),
        bands_of(layout, padded(layout.area, bounds.padding)),
{
    let over = apply_inline_overrides(bounds, wanted_width, parent, inline);
    let area = calculate_dialog_area_clamped(
        parent,
        over.1,
        wanted_height,
        0,
        over.0.max_width,
        0,
        over.0.max_height,
    );
    let inner = apply_padding(area, over.0.padding);
    let rows = split_rows(inner, &three_bands(over.0.header_rows, over.0.footer_rows));
    layout_from_rows(area, &rows)
}

/// Computes a centred dialog with a border, its footer inside the border.
#[must_use]
pub fn compute_centered_bordered_contained(
    parent: Rect,
    bounds: DialogBounds,
    wanted_width: u16,
    wanted_height: u16,
    inline: bool,
) -> (layout: DialogLayout)
    ensures
        layout.area == dialog_area(
            parent,
            if inline {
                parent.width
            } else {
                wanted_width
            },
            wanted_height,
            0,
            if inline {
                parent.width
            } else {
                bounds.max_width
            },
            0,
            bounds.max_height,
        ),
        bands_of(layout, padded(inside_border(layout.area), bounds.padding)),
{
    let over = apply_inline_overrides(bounds, wanted_width, parent, inline);
    let area = calculate_dialog_area_clamped(
        parent,
        over.1,
        wanted_height,
        0,
        over.0.max_width,
        0,
        over.0.max_height,
    );
    let inner = apply_padding(bordered_inner(area), over.0.padding);
    let rows = split_rows(inner, &three_bands(over.0.header_rows, over.0.footer_rows));
    layout_from_rows(area, &rows)
}

/// The layout of a bordered dialog whose footer stands below it: header
/// and body from the split of the inside, the footer under the border.
pub fn layout_with_footer_below(area: Rect, inner: Rect, rows: &Vec<Rect>, footer_rows: u16) -> (layout:
    DialogLayout)
    requires
        rows@.len() == 2,
    ensures
        layout == (DialogLayout {
            area,
            header: rows@[0],
            body: rows@[1],
            footer: Rect {
                x: inner.x,
                y: plus16(area.y as int, area.height as int) as u16,
                width: inner.width,
                height: footer_rows,
            },
        }),
{
    DialogLayout {
        area,
        header: rows[0],
        body: rows[1],
        footer: Rect {
            x: inner.x,
            y: area.y.saturating_add(area.height),
            width: inner.width,
            height: footer_rows,
        },
    }
}

/// Computes a centred dialog with a border, its footer below the border.
#[must_use]
pub fn compute_centered_bordered(
    parent: Rect,
    bounds: DialogBounds,
    wanted_width: u16,
    wanted_height: u16,
    inline: bool,
) -> (layout: DialogLayout)
    ensures
        layout.area == dialog_area(
            parent,
            if inline {
                parent.width
            } else {
                wanted_width
            },
            wanted_height,
            0,
            if inline {
                parent.width
            } else {
                bounds.max_width
            },
            0,
            bounds.max_height,
        ),
        bands_of(layout, padded(inside_border(layout.area), bounds.padding)),
        layout.footer.y == plus16(layout.area.y as int, layout.area.height as int),
        layout.footer.height == bounds.footer_rows,
{
    let over = apply_inline_overrides(bounds, wanted_width, parent, inline);
    let area = calculate_dialog_area_clamped(
        parent,
        over.1,
        wanted_height,
        0,
        over.0.max_width,
        0,
        over.0.max_height,
    );
    let inner = apply_padding(bordered_inner(area), over.0.padding);
    let mut bands: Vec<RowConstraint> = Vec::new();
    bands.push(RowConstraint::Length(over.0.header_rows));
    bands.push(RowConstraint::Min(0));
    let rows = split_rows(inner, &bands);
    layout_with_footer_below(area, inner, &rows, over.0.footer_rows)
}

/// Keeps what the inline flag was while inline sizing is switched on, so
/// that it can be put back afterwards.
#[derive(Debug)]
pub struct InlineDialogGuard {
    prev: bool,
}

impl InlineDialogGuard {
    /// What the flag was before it was switched on.
    pub closed spec fn spec_prev(&self) -> bool {
        self.prev
    }

    /// Switches inline sizing on and remembers what the flag was.
    pub fn enable(flag: &mut bool) -> (guard: Self)
        ensures
            *final(flag),
            guard.spec_prev() == *old(flag),
    {
        let prev = *flag;
        *flag = true;
        Self { prev }
    }

    /// Puts the flag back to what it was.
    pub fn restore(self, flag: &mut bool)
        ensures
            *final(flag) == self.spec_prev(),
    {
        *flag = self.prev;
    }
}

} // verus!
