//! Selection and scrolling of a list that shows a window of its items.

use crate::components::dialog_shell::{block_area, block_inner_of, Padding};
use crate::primitives::geom::{contains, inner_1px, inner_1px_of, Rect};
use crate::primitives::scrollbar::{compute_thumb, plus16, thumb_height, thumb_top};
use vstd::prelude::*;

verus! {

/// Shared list state for selection and virtual scrolling.
#[derive(Debug, Clone, Copy)]
pub struct ListState {
    /// Index of the selected item.
    pub selected: usize,
    /// Index of the first visible item.
    pub viewport_offset: usize,
}

/// Height of a window in rows: never less than one.
pub open spec fn window_rows(visible_height: int) -> int {
    if visible_height < 1 {
        1
    } else {
        visible_height
    }
}

/// Offset that keeps `selected` visible with the least motion. A selection
/// above the window becomes its first row, one below the window becomes its
/// last row, one inside the window leaves the offset as it is.
pub open spec fn anchored_offset(selected: int, visible_height: int, current_offset: int) -> int {
    let rows = window_rows(visible_height);
    if selected < current_offset {
        selected
    } else if selected >= current_offset + rows {
        selected - (rows - 1)
    } else {
        current_offset
    }
}

/// `x` brought into `0 .. len`; zero for an empty list.
pub open spec fn clamp_index(x: int, len: int) -> int {
    if len <= 0 || x < 0 {
        0
    } else if x > len - 1 {
        len - 1
    } else {
        x
    }
}

/// Index after `selected`, wrapping to the first; zero for an empty list.
pub open spec fn next_index(selected: int, len: int) -> int {
    if len <= 0 {
        0
    } else {
        (selected + 1) % len
    }
}

/// Index before `selected`, wrapping from the first to the last; zero for an
/// empty list.
pub open spec fn prev_index(selected: int, len: int) -> int {
    if len <= 0 {
        0
    } else if selected == 0 {
        len - 1
    } else {
        selected - 1
    }
}

/// **Viewport containment.** The anchored offset always shows the
/// selection: it lies at or after the offset and within the window's rows.
pub proof fn lemma_anchored_offset_shows(selected: int, visible_height: int, current_offset: int)
    requires
        0 <= selected,
        0 <= current_offset,
    ensures
        0 <= anchored_offset(selected, visible_height, current_offset) <= selected,
        selected < anchored_offset(selected, visible_height, current_offset) + window_rows(
            visible_height,
        ),
        (current_offset <= selected < current_offset + window_rows(visible_height))
            ==> anchored_offset(selected, visible_height, current_offset) == current_offset,
{
}

/// Calculates the viewport offset that keeps the selected item visible.
///
/// A selection above the current window is brought to the top, one below it
/// to the bottom, and a visible one leaves the offset unchanged.
pub fn calculate_viewport_offset_internal(
    selected: usize,
    visible_height: usize,
    current_offset: usize,
) -> (offset: usize)
    ensures
        offset == anchored_offset(selected as int, visible_height as int, current_offset as int),
        offset <= selected < offset + window_rows(visible_height as int),
{
    let rows: usize = if visible_height < 1 {
        1
    } else {
        visible_height
    };
    if selected < current_offset {
        selected
    } else if selected - current_offset >= rows {
        selected - (rows - 1)
    } else {
        current_offset
    }
}

/// Selects the next item (wraps to 0 after the last one). Zero when the
/// list is empty.
#[must_use]
pub fn select_next(selected: usize, len: usize) -> (next: usize)
    ensures
        next == next_index(selected as int, len as int),
        len > 0 ==> next < len,
        selected + 1 < len ==> next == selected + 1,
        selected + 1 == len ==> next == 0,
{
    if len == 0 {
        return 0;
    }
    proof {
        let q = selected as int / len as int;
        let r = selected as int % len as int;
        vstd::arithmetic::div_mod::lemma_fundamental_div_mod(selected as int, len as int);
        assert(len * q == q * len) by (nonlinear_arith);
        if r + 1 < len {
            vstd::arithmetic::div_mod::lemma_fundamental_div_mod_converse(
                selected + 1,
                len as int,
                q,
                r + 1,
            );
        } else {
            assert((q + 1) * len == q * len + len) by (nonlinear_arith);
            vstd::arithmetic::div_mod::lemma_fundamental_div_mod_converse(
                selected + 1,
                len as int,
                q + 1,
                0,
            );
        }
        if selected < len {
            vstd::arithmetic::div_mod::lemma_small_mod(selected as nat, len as nat);
        }
    }
    let rest = selected % len;
    if rest + 1 == len {
        0
    } else {
        rest + 1
    }
}

/// Selects the previous item (wraps to the last one from 0). Zero when the
/// list is empty.
#[must_use]
pub fn select_prev(selected: usize, len: usize) -> (prev: usize)
    ensures
        prev == prev_index(selected as int, len as int),
{
    if len == 0 {
        return 0;
    }
    if selected == 0 {
        len - 1
    } else {
        selected - 1
    }
}

impl ListState {
    /// A list with the first item selected and shown at the top.
    pub fn new() -> (state: Self)
        ensures
            state.selected == 0,
            state.viewport_offset == 0,
    {
        Self { selected: 0, viewport_offset: 0 }
    }

    /// The selection is visible in a window of `visible_height` rows.
    pub open spec fn shows_selection(self, visible_height: int) -> bool {
        self.viewport_offset <= self.selected < self.viewport_offset + window_rows(
            visible_height,
        )
    }

    /// Clamps the selection to `[0, len-1]`, or to 0 for an empty list.
    pub fn clamp_selection(&mut self, len: usize)
        ensures
            final(self).selected == clamp_index(old(self).selected as int, len as int),
            final(self).viewport_offset == old(self).viewport_offset,
    {
        if len == 0 {
            self.selected = 0;
        } else if self.selected >= len {
            self.selected = len - 1;
        }
    }

    /// Sets the selected index, clamped by `len`.
    pub fn set_selected(&mut self, idx: usize, len: usize)
        ensures
            final(self).selected == clamp_index(idx as int, len as int),
            final(self).viewport_offset == old(self).viewport_offset,
    {
        self.selected = if len == 0 {
            0
        } else if idx < len - 1 {
            idx
        } else {
            len - 1
        };
    }

    /// Moves the selection to the next item, wrapping after the last.
    pub fn select_next(&mut self, len: usize)
        ensures
            final(self).selected == next_index(old(self).selected as int, len as int),
            final(self).viewport_offset == old(self).viewport_offset,
    {
        self.selected = select_next(self.selected, len);
    }

    /// Moves the selection to the previous item, wrapping before the first.
    pub fn select_prev(&mut self, len: usize)
        ensures
            final(self).selected == prev_index(old(self).selected as int, len as int),
            final(self).viewport_offset == old(self).viewport_offset,
    {
        self.selected = select_prev(self.selected, len);
    }

    /// Selects the first item.
    pub fn jump_top(&mut self)
        ensures
            final(self).selected == 0,
            final(self).viewport_offset == old(self).viewport_offset,
    {
        self.selected = 0;
    }

    /// Selects the last item; leaves an empty list as it is.
    pub fn jump_bottom(&mut self, len: usize)
        ensures
            final(self).selected == if len > 0 {
                len - 1
            } else {
                old(self).selected as int
            },
            final(self).viewport_offset == old(self).viewport_offset,
    {
        if len > 0 {
            self.selected = len - 1;
        }
    }

    /// Moves the selection by `delta` lines, up for a negative `delta`, and
    /// keeps it within the list.
    pub fn scroll_lines(&mut self, delta: isize, len: usize)
        ensures
            final(self).selected == clamp_index(old(self).selected + delta, len as int),
            final(self).viewport_offset == old(self).viewport_offset,
    {
        if len == 0 {
            self.selected = 0;
            return ;
        }
        let last = len - 1;
        if delta >= 0 {
            let down = delta as usize;
            self.selected = if self.selected >= last || down > last - self.selected {
                last
            } else {
                self.selected + down
            };
        } else {
            let up: usize = if delta == isize::MIN {
                (isize::MAX as usize) + 1
            } else {
                (-delta) as usize
            };
            let target = if up >= self.selected {
                0
            } else {
                self.selected - up
            };
            self.selected = if target > last {
                last
            } else {
                target
            };
        }
    }

    /// Moves the selection one window down.
    pub fn page_down(&mut self, visible_height: usize, len: usize)
        ensures
            final(self).selected == clamp_index(
                old(self).selected + window_rows(visible_height as int),
                len as int,
            ),
            final(self).viewport_offset == old(self).viewport_offset,
    {
        if len == 0 {
            self.selected = 0;
            return ;
        }
        let step: usize = if visible_height < 1 {
            1
        } else {
            visible_height
        };
        let last = len - 1;
        self.selected = if self.selected >= last || step > last - self.selected {
            last
        } else {
            self.selected + step
        };
    }

    /// Moves the selection one window up.
    pub fn page_up(&mut self, visible_height: usize, len: usize)
        ensures
            final(self).selected == clamp_index(
                old(self).selected - window_rows(visible_height as int),
                len as int,
            ),
            final(self).viewport_offset == old(self).viewport_offset,
    {
        if len == 0 {
            self.selected = 0;
            return ;
        }
        let step: usize = if visible_height < 1 {
            1
        } else {
            visible_height
        };
        let last = len - 1;
        let target = if step >= self.selected {
            0
        } else {
            self.selected - step
        };
        self.selected = if target > last {
            last
        } else {
            target
        };
    }

    /// Moves the window so that the selection is visible in
    /// `visible_height` rows, with the least motion.
    pub fn update_offset(&mut self, visible_height: usize)
        ensures
            final(self).selected == old(self).selected,
            final(self).viewport_offset == anchored_offset(
                old(self).selected as int,
                visible_height as int,
                old(self).viewport_offset as int,
            ),
            final(self).shows_selection(visible_height as int),
    {
        self.viewport_offset =
        calculate_viewport_offset_internal(self.selected, visible_height, self.viewport_offset);
    }
}

impl Default for ListState {
    fn default() -> (state: Self)
        ensures
            state.selected == 0,
            state.viewport_offset == 0,
    {
        Self::new()
    }
}

/// Item under the cell `(col, row)` of a list's content area: none outside
/// the area or for an empty list, else the item shown on that row, which is
/// the last item for rows below it.
pub open spec fn item_at(
    content_area: Rect,
    selected: int,
    viewport_offset: int,
    total: int,
    col: int,
    row: int,
) -> Option<int> {
    if total <= 0 || !content_area.covers(col, row) {
        None
    } else {
        let shown = anchored_offset(selected, content_area.height as int, viewport_offset) + (row
            - content_area.y);
        if shown <= total - 1 {
            Some(shown)
        } else {
            Some(total - 1)
        }
    }
}

/// Integer view of an index that may be absent.
pub open spec fn index_view(idx: Option<usize>) -> Option<int> {
    match idx {
        Some(i) => Some(i as int),
        None => None,
    }
}

/// Maps a mouse position `(col, row)` to a list index within a content
/// area, taking the current selection and offset into account: the offset
/// is anchored to the selection first, then the row is added to it.
#[must_use]
pub fn index_at_content(
    content_area: Rect,
    selected: usize,
    viewport_offset: usize,
    total: usize,
    col: u16,
    row: u16,
) -> (idx: Option<usize>)
    ensures
        index_view(idx) == item_at(
            content_area,
            selected as int,
            viewport_offset as int,
            total as int,
            col as int,
            row as int,
        ),
        idx matches Some(i) ==> i < total,
{
    if total == 0 {
        return None;
    }
    if !contains(content_area, col, row) {
        return None;
    }
    let hovered_row = (row - content_area.y) as usize;
    let visible_h = content_area.height as usize;
    let offset = calculate_viewport_offset_internal(selected, visible_h, viewport_offset);
    let last = total - 1;
    if offset > last || hovered_row > last - offset {
        Some(last)
    } else {
        Some(offset + hovered_row)
    }
}

/// Maps a mouse position `(col, row)` to a list index within a bordered
/// list area: the content area is the area without its one-cell border.
#[must_use]
pub fn index_at(
    list_area: Rect,
    selected: usize,
    viewport_offset: usize,
    total: usize,
    col: u16,
    row: u16,
) -> (idx: Option<usize>)
    ensures
        index_view(idx) == item_at(
            inner_1px_of(list_area),
            selected as int,
            viewport_offset as int,
            total as int,
            col as int,
            row as int,
        ),
        idx matches Some(i) ==> i < total,
{
    let inner = inner_1px(list_area);
    index_at_content(inner, selected, viewport_offset, total, col, row)
}

/// Visual chrome options for list rendering.
#[derive(Debug, Clone)]
pub enum ListChrome {
    /// Default bordered chrome with a title and standard padding.
    Bordered { title: String, padding: Padding },
    /// Borderless chrome intended for lightweight dropdowns.
    Plain { padding: Padding },
}

impl ListChrome {
    /// The padding of the chrome.
    pub open spec fn spec_padding(&self) -> Padding {
        match self {
            ListChrome::Bordered { padding, .. } => *padding,
            ListChrome::Plain { padding } => *padding,
        }
    }

    /// Bordered chrome with a title and no padding.
    #[must_use]
    pub fn bordered(title: String) -> (chrome: Self)
        ensures
            chrome == (ListChrome::Bordered {
                title,
                padding: Padding { left: 0, right: 0, top: 0, bottom: 0 },
            }),
    {
        Self::Bordered { title, padding: Padding::new(0, 0, 0, 0) }
    }

    /// Plain chrome without padding.
    #[must_use]
    pub fn plain() -> (chrome: Self)
        ensures
            chrome == (ListChrome::Plain {
                padding: Padding { left: 0, right: 0, top: 0, bottom: 0 },
            }),
    {
        Self::Plain { padding: Padding::new(0, 0, 0, 0) }
    }

    /// The same chrome with another padding.
    #[must_use]
    pub fn with_padding(self, padding: Padding) -> (chrome: Self)
        ensures
            chrome.spec_padding() == padding,
            chrome is Bordered == self is Bordered,
            self matches ListChrome::Bordered { title, .. } ==> chrome->title == title,
    {
        match self {
            Self::Bordered { title, .. } => Self::Bordered { title, padding },
            Self::Plain { .. } => Self::Plain { padding },
        }
    }
}

/// What of a list is drawn inside its chrome.
#[derive(Debug, Clone, Copy, PartialEq, Eq, Structural)]
pub struct ListPlan {
    /// Index of the first item drawn.
    pub offset: usize,
    /// Index behind the last item drawn.
    pub end: usize,
    /// Where the items are drawn: the inside of the chrome, without its
    /// last column where a scrollbar is shown.
    pub content_area: Rect,
    /// Height and top of the scrollbar's thumb, counted from the first
    /// row, where a scrollbar is shown.
    pub thumb: Option<Thumb>,
}

/// The thumb of a list's scrollbar.
#[derive(Debug, Clone, Copy, PartialEq, Eq, Structural)]
pub struct Thumb {
    pub height: u16,
    pub top: u16,
    /// Column of the scrollbar.
    pub bar_x: u16,
}

/// A count that is held in a `u32`: itself where it fits, else the largest
/// `u32`.
pub open spec fn cap32(x: int) -> u32 {
    if x > u32::MAX {
        u32::MAX
    } else if x < 0 {
        0
    } else {
        x as u32
    }
}

/// The plan for a list of `len` items inside `inner`: the window is
/// anchored to the selection, the items that fall in it are drawn, and a
/// scrollbar takes the last column where the items do not all fit and
/// there is more than one column.
pub open spec fn list_plan_of(inner: Rect, selected: int, current_offset: int, len: int)
    -> ListPlan {
    let rows = window_rows(inner.height as int);
    let offset = anchored_offset(selected, rows, current_offset);
    let end = if offset + rows <= len {
        offset + rows
    } else {
        len
    };
    let bar = len > rows && inner.width > 1;
    ListPlan {
        offset: offset as usize,
        end: end as usize,
        content_area: if bar {
            Rect { width: (inner.width - 1) as u16, ..inner }
        } else {
            inner
        },
        thumb: if bar {
            Some(
                Thumb {
                    height: thumb_height(
                        inner.height as int,
                        inner.height as int,
                        cap32(len) as int,
                    ) as u16,
                    top: thumb_top(
                        inner.height as int,
                        inner.height as int,
                        cap32(len) as int,
                        cap32(offset) as int,
                    ) as u16,
                    bar_x: plus16(inner.x as int, inner.width - 1) as u16,
                },
            )
        } else {
            None
        },
    }
}

fn cap_u32(n: usize) -> (c: u32)
    ensures
        c == cap32(n as int),
{
    if n > u32::MAX as usize {
        u32::MAX
    } else {
        n as u32
    }
}

/// Plans the drawing of a list inside its chrome. Nothing is drawn in an
/// area without cells.
pub fn plan_list(inner: Rect, selected: usize, current_offset: usize, len: usize) -> (plan: Option<
    ListPlan,
>)
    ensures
        plan == if inner.width == 0 || inner.height == 0 {
            None
        } else {
            Some(list_plan_of(inner, selected as int, current_offset as int, len as int))
        },
        plan matches Some(p) ==> p.offset <= p.end <= len || (p.end == len && p.offset > len),
        plan matches Some(p) ==> (p.thumb matches Some(t) ==> 1 <= t.height <= inner.height && t.top
            + t.height <= inner.height),
{
    if inner.width == 0 || inner.height == 0 {
        return None;
    }
    let rows = inner.height as usize;
    let offset = calculate_viewport_offset_internal(selected, rows, current_offset);
    let end = if offset <= len && rows <= len - offset {
        offset + rows
    } else {
        len
    };
    let bar = len > rows && inner.width > 1;
    let content_area = if bar {
        Rect { width: inner.width - 1, ..inner }
    } else {
        inner
    };
    let thumb = if bar {
        let t = compute_thumb(inner.height, inner.height, cap_u32(len), cap_u32(offset));
        Some(Thumb { height: t.0, top: t.1, bar_x: inner.x.saturating_add(inner.width - 1) })
    } else {
        None
    };
    Some(ListPlan { offset, end, content_area, thumb })
}

/// Plans the drawing of a list in `area` with its chrome: the list is
/// drawn inside the chrome's border and padding.
pub fn plan_list_with_chrome(
    area: Rect,
    chrome: &ListChrome,
    selected: usize,
    current_offset: usize,
    len: usize,
) -> (plan: Option<ListPlan>)
    requires
        chrome.spec_padding().left + chrome.spec_padding().right <= u16::MAX,
        chrome.spec_padding().top + chrome.spec_padding().bottom <= u16::MAX,
    ensures
        plan == {
            let inner = block_inner_of(area, chrome is Bordered, chrome.spec_padding());
            if inner.width == 0 || inner.height == 0 {
                None
            } else {
                Some(list_plan_of(inner, selected as int, current_offset as int, len as int))
            }
        },
{
    let inner = match chrome {
        ListChrome::Bordered { padding, .. } => block_area(area, true, *padding),
        ListChrome::Plain { padding } => block_area(area, false, *padding),
    };
    plan_list(inner, selected, current_offset, len)
}

} // verus!
