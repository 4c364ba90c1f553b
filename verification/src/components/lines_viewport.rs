//! Drawing a window of lines that were wrapped before.

use crate::primitives::geom::Rect;
use crate::primitives::scrollbar::{minus, plus16};
use vstd::prelude::*;

verus! {

/// How a line is placed in its row.
#[derive(Debug, Clone, Copy, PartialEq, Eq, Structural)]
pub enum Alignment {
    Left,
    Center,
    Right,
}

/// Column, counted from the left edge of an area `area_width` wide, at
/// which a line of `line_width` columns starts: at the edge, centred, or
/// flush right. A line wider than the area counts as wide as the area.
pub open spec fn line_offset_of(alignment: Alignment, area_width: u16, line_width: int) -> int {
    let shown = if line_width <= area_width {
        line_width
    } else {
        area_width as int
    };
    match alignment {
        Alignment::Left => 0,
        Alignment::Center => minus(area_width as int / 2, shown / 2),
        Alignment::Right => area_width - shown,
    }
}

/// Column at which a line starts in its row, and the columns that it may
/// take from there.
pub fn line_offset(alignment: Alignment, area_width: u16, line_width: usize) -> (r: (u16, u16))
    ensures
        r.0 == line_offset_of(alignment, area_width, line_width as int),
        r.1 == area_width - r.0,
{
    let shown: u16 = if line_width <= area_width as usize {
        line_width as u16
    } else {
        area_width
    };
    let offset = match alignment {
        Alignment::Left => 0,
        Alignment::Center => (area_width / 2).saturating_sub(shown / 2),
        Alignment::Right => area_width - shown,
    };
    (offset, area_width - offset)
}

/// One run of lines of a window: which lines, and where they are drawn.
#[derive(Debug, Clone, Copy, PartialEq, Eq, Structural)]
pub struct LinesRun {
    /// Index of the first line of the run.
    pub from: usize,
    /// Index behind its last line.
    pub to: usize,
    pub area: Rect,
}

/// The window over history and tail: the run of history lines drawn, and
/// the run of tail lines below it.
#[derive(Debug, Clone, Copy, PartialEq, Eq, Structural)]
pub struct LinesWindow {
    pub history: Option<LinesRun>,
    pub tail: Option<LinesRun>,
}

/// The window of `area.height` rows that starts at line `start` of the
/// history followed by the tail. While the start lies in the history, its
/// lines are drawn from there and the tail's first lines fill the rows
/// below; from the end of the history on, the tail alone is drawn, in the
/// whole area.
pub open spec fn lines_window_of(area: Rect, history_len: int, tail_len: int, start: int)
    -> LinesWindow {
    let rows = area.height as int;
    if start < history_len {
        let end_history = if start + rows <= history_len {
            start + rows
        } else {
            history_len
        };
        let shown = end_history - start;
        let rest = rows - shown;
        let end_tail = if rest <= tail_len {
            rest
        } else {
            tail_len
        };
        LinesWindow {
            history: if shown > 0 {
                Some(
                    LinesRun {
                        from: start as usize,
                        to: end_history as usize,
                        area: Rect { height: shown as u16, ..area },
                    },
                )
            } else {
                None
            },
            tail: if rest > 0 && end_tail > 0 {
                Some(
                    LinesRun {
                        from: 0,
                        to: end_tail as usize,
                        area: Rect {
                            y: plus16(area.y as int, shown) as u16,
                            height: end_tail as u16,
                            ..area
                        },
                    },
                )
            } else {
                None
            },
        }
    } else {
        let tail_start = start - history_len;
        let end_tail = if tail_start + rows <= tail_len {
            tail_start + rows
        } else {
            tail_len
        };
        LinesWindow {
            history: None,
            tail: if tail_start <= end_tail {
                Some(LinesRun { from: tail_start as usize, to: end_tail as usize, area })
            } else {
                None
            },
        }
    }
}

/// Plans the window over history and tail that starts at line `start`.
pub fn lines_window(area: Rect, history_len: usize, tail_len: usize, start: u32) -> (window:
    LinesWindow)
    ensures
        window == lines_window_of(area, history_len as int, tail_len as int, start as int),
        window.history matches Some(run) ==> run.from <= run.to <= history_len,
        window.tail matches Some(run) ==> run.from <= run.to <= tail_len,
{
    let start_idx = start as usize;
    let rows = area.height as usize;
    if start_idx < history_len {
        let end_history = if rows <= history_len - start_idx {
            start_idx + rows
        } else {
            history_len
        };
        let shown = end_history - start_idx;
        let rest = rows - shown;
        let end_tail = if rest <= tail_len {
            rest
        } else {
            tail_len
        };
        let history = if shown > 0 {
            Some(
                LinesRun {
                    from: start_idx,
                    to: end_history,
                    area: Rect { height: shown as u16, ..area },
                },
            )
        } else {
            None
        };
        let tail = if rest > 0 && end_tail > 0 {
            Some(
                LinesRun {
                    from: 0,
                    to: end_tail,
                    area: Rect {
                        y: area.y.saturating_add(shown as u16),
                        height: end_tail as u16,
                        ..area
                    },
                },
            )
        } else {
            None
        };
        LinesWindow { history, tail }
    } else {
        let tail_start = start_idx - history_len;
        let end_tail = if tail_start <= tail_len && rows <= tail_len - tail_start {
            tail_start + rows
        } else {
            tail_len
        };
        LinesWindow {
            history: None,
            tail: if tail_start <= end_tail {
                Some(LinesRun { from: tail_start, to: end_tail, area })
            } else {
                None
            },
        }
    }
}

} // verus!
