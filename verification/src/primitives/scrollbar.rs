//! Geometry of a vertical scrollbar: the size and place of the thumb on its
//! track, and the way back from a pointer row to a scroll offset.

use crate::primitives::geom::Rect;
use vstd::prelude::*;

verus! {

/// Largest scroll offset: the rows that do not fit in the window.
pub open spec fn max_scroll_of(visible_rows: int, total_rows: int) -> int {
    if total_rows >= visible_rows {
        total_rows - visible_rows
    } else {
        0
    }
}

/// Height of the thumb: the track's share of visible rows, rounded down, but
/// at least one row, and no more than a `u16` holds. One row where there are
/// no rows at all.
pub open spec fn thumb_height(track_h: int, visible_rows: int, total_rows: int) -> int {
    if total_rows == 0 {
        1
    } else {
        let share = (track_h * visible_rows) / total_rows;
        if share < 1 {
            1
        } else if share > u16::MAX {
            u16::MAX as int
        } else {
            share
        }
    }
}

/// Rows of the track that the thumb can move over.
pub open spec fn thumb_room(track_h: int, thumb_h: int) -> int {
    if track_h >= thumb_h {
        track_h - thumb_h
    } else {
        0
    }
}

/// Top of the thumb: the scroll offset, clamped to the largest one, mapped
/// linearly onto the room the thumb has. Zero where nothing can scroll.
pub open spec fn thumb_top(track_h: int, visible_rows: int, total_rows: int, scroll: int) -> int {
    let max_scroll = max_scroll_of(visible_rows, total_rows);
    let room = thumb_room(track_h, thumb_height(track_h, visible_rows, total_rows));
    if max_scroll == 0 {
        0
    } else if scroll >= max_scroll {
        room
    } else {
        (scroll * room) / max_scroll
    }
}

/// Scroll offset for a thumb position: the position mapped linearly from
/// the thumb's room onto the scroll range. Zero where the thumb has no room
/// or nothing can scroll.
pub open spec fn scroll_for_thumb(thumb_pos: int, max_thumb_top: int, max_scroll: int) -> int {
    if max_thumb_top == 0 || max_scroll == 0 {
        0
    } else {
        (thumb_pos * max_scroll) / max_thumb_top
    }
}

/// A product of two factors, one of them at most `c`, divided by `c`, is at
/// most the other factor.
pub proof fn lemma_scaled_le(a: int, b: int, c: int)
    requires
        0 <= a <= c,
        0 <= b,
        0 < c,
    ensures
        0 <= (a * b) / c <= b,
{
    assert(a * b <= c * b) by (nonlinear_arith)
        requires
            0 <= a <= c,
            0 <= b,
    ;
    assert(0 <= a * b) by (nonlinear_arith)
        requires
            0 <= a,
            0 <= b,
    ;
    assert((a * b) / c <= b) by (nonlinear_arith)
        requires
            a * b <= c * b,
            0 < c,
    ;
    assert(0 <= (a * b) / c) by (nonlinear_arith)
        requires
            0 <= a * b,
            0 < c,
    ;
}

/// **Drag agrees with scroll.** A scroll offset mapped to the top of the
/// thumb and back never grows, comes back exactly at both ends of the
/// range, and maps to the same top again or to one above it.
pub proof fn lemma_drag_round_trip(scroll: int, room: int, max_scroll: int)
    requires
        0 < room,
        0 < max_scroll,
        0 <= scroll <= max_scroll,
    ensures
        ({
            let top = (scroll * room) / max_scroll;
            let back = scroll_for_thumb(top, room, max_scroll);
            &&& 0 <= top <= room
            &&& 0 <= back <= scroll
            &&& (scroll == 0 ==> back == 0)
            &&& (scroll == max_scroll ==> back == max_scroll)
            &&& 0 <= (back * room) / max_scroll <= top
        }),
{
    let top = (scroll * room) / max_scroll;
    let back = (top * max_scroll) / room;
    lemma_scaled_le(scroll, room, max_scroll);
    assert(top * max_scroll <= scroll * room) by (nonlinear_arith)
        requires
            top == (scroll * room) / max_scroll,
            0 < max_scroll,
            0 <= scroll * room,
    {
    }
    assert(0 <= scroll * room) by (nonlinear_arith)
        requires
            0 <= scroll,
            0 < room,
    ;
    assert(0 <= top * max_scroll) by (nonlinear_arith)
        requires
            0 <= top,
            0 < max_scroll,
    ;
    assert(0 <= back <= scroll) by (nonlinear_arith)
        requires
            back == (top * max_scroll) / room,
            0 <= top * max_scroll <= scroll * room,
            0 < room,
    ;
    if scroll == max_scroll {
        assert(top == room) by (nonlinear_arith)
            requires
                top == (max_scroll * room) / max_scroll,
                0 < max_scroll,
        ;
        assert(back == max_scroll) by (nonlinear_arith)
            requires
                back == (room * max_scroll) / room,
                0 < room,
        ;
    }
    assert(back * room <= top * max_scroll) by (nonlinear_arith)
        requires
            back == (top * max_scroll) / room,
            0 < room,
            0 <= top * max_scroll,
    ;
    assert(0 <= back * room) by (nonlinear_arith)
        requires
            0 <= back,
            0 < room,
    ;
    assert(0 <= (back * room) / max_scroll <= top) by (nonlinear_arith)
        requires
            0 <= back * room <= top * max_scroll,
            0 < max_scroll,
    ;
}

/// **Scrollbar bounds.** With a track of at least one row and a window no
/// larger than the content, the thumb is at least one row high, no higher
/// than the track, and lies within the track for every scroll offset.
pub proof fn lemma_thumb_bounds(track_h: int, visible_rows: int, total_rows: int, scroll: int)
    requires
        1 <= track_h,
        0 < visible_rows <= total_rows,
        0 <= scroll <= max_scroll_of(visible_rows, total_rows),
    ensures
        1 <= thumb_height(track_h, visible_rows, total_rows) <= track_h,
        0 <= thumb_top(track_h, visible_rows, total_rows, scroll),
        thumb_top(track_h, visible_rows, total_rows, scroll) + thumb_height(
            track_h,
            visible_rows,
            total_rows,
        ) <= track_h,
{
    lemma_scaled_le(visible_rows, track_h, total_rows);
    assert(track_h * visible_rows == visible_rows * track_h) by (nonlinear_arith);
    let room = thumb_room(track_h, thumb_height(track_h, visible_rows, total_rows));
    let max_scroll = max_scroll_of(visible_rows, total_rows);
    if max_scroll > 0 && scroll < max_scroll {
        lemma_scaled_le(scroll, room, max_scroll);
    }
}

/// Computes the thumb of a vertical scrollbar: `(thumb_h, thumb_top,
/// max_scroll)` for a track of `track_h` rows, a window of `visible_rows`
/// rows over `total_rows` rows of content, scrolled to row `scroll`.
///
/// The thumb is never less than one row high and never starts below the
/// room that the track leaves it.
#[must_use]
pub fn compute_thumb(track_h: u16, visible_rows: u16, total_rows: u32, scroll: u32) -> (r: (
    u16,
    u16,
    u32,
))
    ensures
        r.0 == thumb_height(track_h as int, visible_rows as int, total_rows as int),
        r.1 == thumb_top(track_h as int, visible_rows as int, total_rows as int, scroll as int),
        r.2 == max_scroll_of(visible_rows as int, total_rows as int),
        r.0 >= 1,
        r.1 <= thumb_room(track_h as int, r.0 as int),
        (track_h >= 1 && 0 < visible_rows <= total_rows) ==> r.0 <= track_h && r.1 + r.0
            <= track_h,
{
    let max_scroll: u32 = total_rows.saturating_sub(visible_rows as u32);
    let thumb_h: u16 = if total_rows == 0 {
        1
    } else {
        assert(track_h * visible_rows <= 0xFFFF * 0xFFFF) by (nonlinear_arith)
            requires
                track_h <= 0xFFFF,
                visible_rows <= 0xFFFF,
        ;
        let share: u32 = (track_h as u32 * visible_rows as u32) / total_rows;
        if share < 1 {
            1
        } else if share > u16::MAX as u32 {
            u16::MAX
        } else {
            share as u16
        }
    };
    let room: u16 = track_h.saturating_sub(thumb_h);
    let thumb_top: u16 = if max_scroll == 0 {
        0
    } else if scroll >= max_scroll {
        room
    } else {
        proof {
            lemma_scaled_le(scroll as int, room as int, max_scroll as int);
        }
        assert(scroll * room <= 0xFFFF_FFFF * 0xFFFF) by (nonlinear_arith)
            requires
                scroll <= 0xFFFF_FFFF,
                room <= 0xFFFF,
        ;
        ((scroll as u64 * room as u64) / (max_scroll as u64)) as u16
    };
    proof {
        if track_h >= 1 && 0 < visible_rows <= total_rows {
            let clamped = if scroll >= max_scroll {
                max_scroll as int
            } else {
                scroll as int
            };
            lemma_thumb_bounds(track_h as int, visible_rows as int, total_rows as int, clamped);
        }
    }
    (thumb_h, thumb_top, max_scroll)
}

/// Starts a drag at pointer row `my`: whether the pointer is on the thumb,
/// and the offset inside the thumb at which it is held (the pointer's
/// distance from the thumb's top when on it, else the thumb's middle).
pub fn start_drag(my: u16, thumb_top: u16, thumb_h: u16) -> (r: (bool, u16))
    ensures
        r.0 == (thumb_top <= my && my < thumb_top + thumb_h && my < u16::MAX),
        r.1 == if r.0 {
            my - thumb_top
        } else {
            thumb_h as int / 2
        },
{
    let within_thumb = my >= thumb_top && my < thumb_top.saturating_add(thumb_h);
    let grab_offset = if within_thumb {
        my - thumb_top
    } else {
        thumb_h / 2
    };
    (within_thumb, grab_offset)
}

/// A difference that stops at zero.
pub open spec fn minus(a: int, b: int) -> int {
    if a >= b {
        a - b
    } else {
        0
    }
}

/// Thumb top wanted for a pointer at row `my` on a track that starts at row
/// `top` and is `height` rows high: the pointer's row on the track less the
/// grab offset, no further than the thumb's room. Returns it with that room.
pub fn desired_from_click(my: u16, top: u16, height: u16, grab_offset: u16, thumb_h: u16) -> (r: (
    u16,
    u16,
))
    ensures
        r.1 == minus(height as int, thumb_h as int),
        r.0 == if minus(minus(my as int, top as int), grab_offset as int) <= r.1 {
            minus(minus(my as int, top as int), grab_offset as int)
        } else {
            r.1 as int
        },
        r.0 <= r.1,
{
    let max_thumb_top = height.saturating_sub(thumb_h);
    let wanted = my.saturating_sub(top).saturating_sub(grab_offset);
    let desired = if wanted <= max_thumb_top {
        wanted
    } else {
        max_thumb_top
    };
    (desired, max_thumb_top)
}

/// Maps a thumb position back to a scroll offset (saturating).
pub fn map_thumb_to_scroll_u32(thumb_pos: u16, max_thumb_top: u16, max_scroll: u32) -> (scroll: u32)
    ensures
        scroll == if scroll_for_thumb(thumb_pos as int, max_thumb_top as int, max_scroll as int)
            <= u32::MAX {
            scroll_for_thumb(thumb_pos as int, max_thumb_top as int, max_scroll as int)
        } else {
            u32::MAX as int
        },
        thumb_pos <= max_thumb_top ==> scroll <= max_scroll,
{
    if max_thumb_top == 0 || max_scroll == 0 {
        0
    } else {
        assert(thumb_pos * max_scroll <= 0xFFFF * 0xFFFF_FFFF) by (nonlinear_arith)
            requires
                thumb_pos <= 0xFFFF,
                max_scroll <= 0xFFFF_FFFF,
        ;
        proof {
            if thumb_pos <= max_thumb_top {
                lemma_scaled_le(thumb_pos as int, max_scroll as int, max_thumb_top as int);
            }
        }
        let mapped: u64 = (thumb_pos as u64 * max_scroll as u64) / (max_thumb_top as u64);
        if mapped > u32::MAX as u64 {
            u32::MAX
        } else {
            mapped as u32
        }
    }
}

/// Maps a thumb position back to a scroll offset (saturating), for scroll
/// ranges that fit sixteen bits.
pub fn map_thumb_to_scroll_u16(thumb_pos: u16, max_thumb_top: u16, max_scroll: u16) -> (scroll: u16)
    ensures
        scroll == if scroll_for_thumb(thumb_pos as int, max_thumb_top as int, max_scroll as int)
            <= u16::MAX {
            scroll_for_thumb(thumb_pos as int, max_thumb_top as int, max_scroll as int)
        } else {
            u16::MAX as int
        },
        thumb_pos <= max_thumb_top ==> scroll <= max_scroll,
{
    if max_thumb_top == 0 || max_scroll == 0 {
        0
    } else {
        assert(thumb_pos * max_scroll <= 0xFFFF * 0xFFFF) by (nonlinear_arith)
            requires
                thumb_pos <= 0xFFFF,
                max_scroll <= 0xFFFF,
        ;
        proof {
            if thumb_pos <= max_thumb_top {
                lemma_scaled_le(thumb_pos as int, max_scroll as int, max_thumb_top as int);
            }
        }
        let mapped: u32 = (thumb_pos as u32 * max_scroll as u32) / (max_thumb_top as u32);
        if mapped > u16::MAX as u32 {
            u16::MAX
        } else {
            mapped as u16
        }
    }
}

/// A sum that stops at the largest `u16`.
pub open spec fn plus16(a: int, b: int) -> int {
    if a + b <= u16::MAX {
        a + b
    } else {
        u16::MAX as int
    }
}

/// Column, top row and height of the scrollbar of `area`: its last column,
/// from its first row down, one row short of its height where the bottom
/// row is reserved.
pub fn bar_geometry(area: Rect, reserve_bottom_row: bool) -> (r: (u16, u16, u16))
    ensures
        r.0 == plus16(area.x as int, minus(area.width as int, 1)),
        r.1 == area.y,
        r.2 == if reserve_bottom_row {
            minus(area.height as int, 1)
        } else {
            area.height as int
        },
{
    let bar_x = area.x.saturating_add(area.width.saturating_sub(1));
    let top = area.y;
    let mut height = area.height;
    if reserve_bottom_row {
        height = height.saturating_sub(1);
    }
    (bar_x, top, height)
}

/// The scrollbar inside an input's content area, where one is needed:
/// `(bar_x, top, height, thumb_top_abs, thumb_h, max_scroll)`.
///
/// None is needed where all `total_rows` fit in `content_h` rows, or where
/// the area or the content height is empty.
pub fn internal_input_geometry(area: Rect, content_h: u16, total_rows: u16, scroll: u16) -> (r:
    Option<(u16, u16, u16, u16, u16, u16)>)
    ensures
        r is None <==> (total_rows <= content_h || area.height == 0 || area.width == 0
            || content_h == 0),
        r matches Some(g) ==> {
            let height = if content_h <= area.height {
                content_h as int
            } else {
                area.height as int
            };
            &&& g.0 == plus16(area.x as int, minus(area.width as int, 1))
            &&& g.1 == area.y
            &&& g.2 == height
            &&& g.4 == thumb_height(height, content_h as int, total_rows as int)
            &&& g.3 == plus16(
                area.y as int,
                thumb_top(height, content_h as int, total_rows as int, scroll as int),
            )
            &&& g.5 == total_rows - content_h
            &&& 1 <= g.4 <= g.2
        },
{
    if total_rows <= content_h || area.height == 0 || area.width == 0 {
        return None;
    }
    let height = if content_h <= area.height {
        content_h
    } else {
        area.height
    };
    if height == 0 {
        return None;
    }
    let bar_x = area.x.saturating_add(area.width.saturating_sub(1));
    let top = area.y;
    let thumb = compute_thumb(height, content_h, total_rows as u32, scroll as u32);
    let max_scroll = total_rows - content_h;
    Some((bar_x, top, height, top.saturating_add(thumb.1), thumb.0, max_scroll))
}

} // verus!
