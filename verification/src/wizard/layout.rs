//! The bands that the steps of a wizard are laid out in.

use crate::components::dialog_shell::{split_rows, RowConstraint};
use crate::primitives::geom::Rect;
use vstd::prelude::*;

verus! {

/// Standard vertical split used by most single-input wizard steps: one
/// row of padding, three rows for the input box, two for the validation
/// line, and the rest. Every band has the area's column and width.
#[must_use]
pub fn input_step_layout(area: Rect) -> (bands: [Rect; 4])
    ensures
        forall|i: int| 0 <= i < 4 ==> (#[trigger] bands@[i]).x == area.x
            && bands@[i].width == area.width,
{
    let mut wanted: Vec<RowConstraint> = Vec::new();
    wanted.push(RowConstraint::Length(1));
    wanted.push(RowConstraint::Length(3));
    wanted.push(RowConstraint::Length(2));
    wanted.push(RowConstraint::Min(0));
    let rows = split_rows(area, &wanted);
    [rows[0], rows[1], rows[2], rows[3]]
}

/// Vertical split with a single blank line followed by the main body.
/// Both bands have the area's column and width.
#[must_use]
pub fn padded_list_layout(area: Rect) -> (bands: [Rect; 2])
    ensures
        forall|i: int| 0 <= i < 2 ==> (#[trigger] bands@[i]).x == area.x
            && bands@[i].width == area.width,
{
    let mut wanted: Vec<RowConstraint> = Vec::new();
    wanted.push(RowConstraint::Length(1));
    wanted.push(RowConstraint::Min(0));
    let rows = split_rows(area, &wanted);
    [rows[0], rows[1]]
}

/// The three rows of a wizard's header: the tab bar, a blank row, and the
/// title. Each has the header's column and width.
pub fn wizard_header_rows(header: Rect) -> (bands: [Rect; 3])
    ensures
        forall|i: int| 0 <= i < 3 ==> (#[trigger] bands@[i]).x == header.x
            && bands@[i].width == header.width,
{
    let mut wanted: Vec<RowConstraint> = Vec::new();
    wanted.push(RowConstraint::Length(1));
    wanted.push(RowConstraint::Length(1));
    wanted.push(RowConstraint::Length(1));
    let rows = split_rows(header, &wanted);
    [rows[0], rows[1], rows[2]]
}

/// The bands of a wizard's body: the step's content, two rows of help,
/// and the rest. Each has the body's column and width.
pub fn wizard_body_rows(body: Rect, content_height: u16) -> (bands: [Rect; 3])
    ensures
        forall|i: int| 0 <= i < 3 ==> (#[trigger] bands@[i]).x == body.x
            && bands@[i].width == body.width,
{
    let mut wanted: Vec<RowConstraint> = Vec::new();
    wanted.push(RowConstraint::Length(content_height));
    wanted.push(RowConstraint::Length(2));
    wanted.push(RowConstraint::Min(0));
    let rows = split_rows(body, &wanted);
    [rows[0], rows[1], rows[2]]
}

} // verus!
