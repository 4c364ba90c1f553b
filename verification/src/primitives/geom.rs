use vstd::prelude::*;

verus! {

/// A rectangle of terminal cells: its top-left corner and its size.
#[derive(Clone, Copy, Debug, PartialEq, Eq, Structural, Default)]
pub struct Rect {
    pub x: u16,
    pub y: u16,
    pub width: u16,
    pub height: u16,
}

impl Rect {
    /// The cell `(col, row)` lies inside the rectangle: the left and top
    /// edges belong to it, the right and bottom edges do not.
    pub open spec fn covers(self, col: int, row: int) -> bool {
        &&& self.x <= col < self.x + self.width
        &&& self.y <= row < self.y + self.height
    }

    pub fn new(x: u16, y: u16, width: u16, height: u16) -> (r: Rect)
        ensures
            r == (Rect { x, y, width, height }),
    {
        Rect { x, y, width, height }
    }
}

/// Returns true if `(col, row)` lies within the rectangle (inclusive of the
/// top-left corner, exclusive of the bottom-right one).
pub fn contains(r: Rect, col: u16, row: u16) -> (inside: bool)
    ensures
        inside == r.covers(col as int, row as int),
{
    col >= r.x && col - r.x < r.width && row >= r.y && row - r.y < r.height
}

/// The rectangle without a one-cell border on all sides: the corner moves
/// in by one (no further than the largest coordinate), the sides lose two
/// (no further than zero).
pub open spec fn inner_1px_of(r: Rect) -> Rect {
    Rect {
        x: if r.x < u16::MAX {
            (r.x + 1) as u16
        } else {
            u16::MAX
        },
        y: if r.y < u16::MAX {
            (r.y + 1) as u16
        } else {
            u16::MAX
        },
        width: if r.width >= 2 {
            (r.width - 2) as u16
        } else {
            0
        },
        height: if r.height >= 2 {
            (r.height - 2) as u16
        } else {
            0
        },
    }
}

/// Returns the inner rectangle left after removing a one-cell border on all
/// sides, saturating at zero.
pub fn inner_1px(r: Rect) -> (inner: Rect)
    ensures
        inner == inner_1px_of(r),
{
    Rect {
        x: r.x.saturating_add(1),
        y: r.y.saturating_add(1),
        width: r.width.saturating_sub(2),
        height: r.height.saturating_sub(2),
    }
}

} // verus!
