//! A dialog that overlays the screen: header, body, a gap and a footer
//! inside a padded area.

use crate::components::dialog_shell::{
    block_area, block_inner_of, split_rows, Padding, RowConstraint,
};
use crate::primitives::geom::Rect;
use crate::primitives::scrollbar::plus16;
use vstd::prelude::*;

verus! {

/// Padding and rows of an overlay dialog.
#[derive(Debug, Clone, Copy, PartialEq, Eq, Structural)]
pub struct OverlayDialogOptions {
    pub padding: Padding,
    pub header_rows: u16,
    pub footer_gap: u16,
    pub footer_rows: u16,
}

/// The area of an overlay dialog and its four bands.
#[derive(Debug, Clone, Copy, PartialEq, Eq, Structural)]
pub struct OverlayDialogLayout {
    pub area: Rect,
    pub header: Rect,
    pub body: Rect,
    pub footer_gap: Rect,
    pub footer: Rect,
}

/// One cell of padding on every side.
pub fn default_padding() -> (p: Padding)
    ensures
        p == (Padding { left: 1, right: 1, top: 1, bottom: 1 }),
{
    Padding::new(1, 1, 1, 1)
}

impl OverlayDialogOptions {
    /// The rows around the body: header, gap, footer and the padding above
    /// and below (no more than a `u16` holds, at every step).
    pub open spec fn spec_chrome_rows(self) -> int {
        plus16(
            plus16(
                plus16(
                    plus16(self.header_rows as int, self.footer_gap as int),
                    self.footer_rows as int,
                ),
                self.padding.top as int,
            ),
            self.padding.bottom as int,
        )
    }

    /// Options of an overlay with the default padding and a gap of one row
    /// above the footer.
    pub fn overlay(header_rows: u16, footer_rows: u16) -> (opts: Self)
        ensures
            opts == (OverlayDialogOptions {
                padding: Padding { left: 1, right: 1, top: 1, bottom: 1 },
                header_rows,
                footer_gap: 1,
                footer_rows,
            }),
    {
        Self { padding: default_padding(), header_rows, footer_gap: 1, footer_rows }
    }

    /// The rows that the dialog needs around its body.
    pub fn chrome_rows(self) -> (rows: u16)
        ensures
            rows == self.spec_chrome_rows(),
    {
        self.header_rows.saturating_add(self.footer_gap).saturating_add(
            self.footer_rows,
        ).saturating_add(self.padding.top).saturating_add(self.padding.bottom)
    }
}

/// Height of an overlay dialog with `body_rows` rows of body.
pub fn total_height(body_rows: u16, opts: OverlayDialogOptions) -> (height: u16)
    ensures
        height == plus16(body_rows as int, opts.spec_chrome_rows()),
{
    body_rows.saturating_add(opts.chrome_rows())
}

/// The layout of an overlay from its area and the four bands that the
/// split of its inside gave.
pub fn overlay_from_rows(area: Rect, rows: &Vec<Rect>) -> (layout: OverlayDialogLayout)
    requires
        rows@.len() == 4,
    ensures
        layout == (OverlayDialogLayout {
            area,
            header: rows@[0],
            body: rows@[1],
            footer_gap: rows@[2],
            footer: rows@[3],
        }),
{
    OverlayDialogLayout {
        area,
        header: rows[0],
        body: rows[1],
        footer_gap: rows[2],
        footer: rows[3],
    }
}

/// Splits the inside of `area` into header, body, gap and footer: the
/// bands of the area inside the padding. The padding of two opposite
/// edges must fit in a `u16` together.
pub fn compute_layout(area: Rect, opts: OverlayDialogOptions) -> (layout: OverlayDialogLayout)
    requires
        opts.padding.left + opts.padding.right <= u16::MAX,
        opts.padding.top + opts.padding.bottom <= u16::MAX,
    ensures
        layout.area == area,
        layout.header.x == block_inner_of(area, false, opts.padding).x,
        layout.body.x == block_inner_of(area, false, opts.padding).x,
        layout.footer_gap.x == block_inner_of(area, false, opts.padding).x,
        layout.footer.x == block_inner_of(area, false, opts.padding).x,
        layout.header.width == block_inner_of(area, false, opts.padding).width,
        layout.body.width == block_inner_of(area, false, opts.padding).width,
        layout.footer_gap.width == block_inner_of(area, false, opts.padding).width,
        layout.footer.width == block_inner_of(area, false, opts.padding).width,
{
    let inner = block_area(area, false, opts.padding);
    let mut bands: Vec<RowConstraint> = Vec::new();
    bands.push(RowConstraint::Length(opts.header_rows));
    bands.push(RowConstraint::Min(0));
    bands.push(RowConstraint::Length(opts.footer_gap));
    bands.push(RowConstraint::Length(opts.footer_rows));
    let rows = split_rows(inner, &bands);
    overlay_from_rows(area, &rows)
}

} // verus!
