//! A dropdown: a filtered list of items with a selection, and the place on
//! screen where it opens.

use crate::components::list::{
    anchored_offset, clamp_index, next_index, prev_index, ListState,
};
use crate::layout::fuzzy::{
    all_indices, fuzzy_score, indices_of, rank_scored, ranked, scored_items, skim_score,
};
use crate::primitives::chars::chars_of;
use crate::primitives::geom::Rect;
use crate::primitives::strings::views_of;
use vstd::prelude::*;
use vstd::string::*;

verus! {

/// Items that passed a filter, the filter's text, and the list state over
/// them.
#[derive(Debug, Clone)]
pub struct DropdownList<T> {
    filtered: Vec<T>,
    filter_text: String,
    list: ListState,
}

impl<T> DropdownList<T> {
    /// The items shown.
    pub closed spec fn spec_items(&self) -> Seq<T> {
        self.filtered@
    }

    /// The text that the items were filtered by.
    pub closed spec fn spec_filter(&self) -> Seq<char> {
        self.filter_text@
    }

    /// Index of the selected row.
    pub closed spec fn spec_selected(&self) -> int {
        self.list.selected as int
    }

    /// Index of the first visible row.
    pub closed spec fn spec_offset(&self) -> int {
        self.list.viewport_offset as int
    }

    /// An empty dropdown.
    pub fn new() -> (d: Self)
        ensures
            d.spec_items() == Seq::<T>::empty(),
            d.spec_filter() == Seq::<char>::empty(),
            d.spec_selected() == 0,
            d.spec_offset() == 0,
    {
        Self { filtered: Vec::new(), filter_text: String::new(), list: ListState::new() }
    }

    /// Replaces filter and items, and selects the first item at the top.
    pub fn reset(&mut self, filter_text: &str, filtered: Vec<T>)
        ensures
            final(self).spec_items() == filtered@,
            final(self).spec_filter() == filter_text@,
            final(self).spec_selected() == 0,
            final(self).spec_offset() == 0,
    {
        self.filter_text = filter_text.to_owned();
        self.filtered = filtered;
        self.list.selected = 0;
        self.list.viewport_offset = 0;
    }

    /// Whether no item is shown.
    pub fn is_empty(&self) -> (b: bool)
        ensures
            b == (self.spec_items().len() == 0),
    {
        self.filtered.len() == 0
    }

    /// Number of items shown.
    pub fn len(&self) -> (n: usize)
        ensures
            n == self.spec_items().len(),
    {
        self.filtered.len()
    }

    /// The items shown.
    pub fn items(&self) -> (items: &[T])
        ensures
            items@ == self.spec_items(),
    {
        self.filtered.as_slice()
    }

    /// The text that the items were filtered by.
    pub fn filter_text(&self) -> (text: &str)
        ensures
            text@ == self.spec_filter(),
    {
        self.filter_text.as_str()
    }

    /// The selected row, where there are items.
    pub fn selected_index(&self) -> (idx: Option<usize>)
        ensures
            idx == if self.spec_items().len() == 0 {
                None
            } else {
                Some(self.spec_selected() as usize)
            },
    {
        if self.filtered.len() == 0 {
            None
        } else {
            Some(self.list.selected)
        }
    }

    /// The selected item, where the selected row holds one.
    pub fn selected(&self) -> (item: Option<&T>)
        ensures
            item == if self.spec_selected() < self.spec_items().len() {
                Some(&self.spec_items()[self.spec_selected()])
            } else {
                None
            },
    {
        if self.list.selected < self.filtered.len() {
            Some(&self.filtered[self.list.selected])
        } else {
            None
        }
    }

    /// Selects row `idx`, or the last row where `idx` is past it. Does
    /// nothing without items.
    pub fn set_selected(&mut self, idx: usize)
        ensures
            final(self).spec_items() == old(self).spec_items(),
            final(self).spec_filter() == old(self).spec_filter(),
            final(self).spec_offset() == old(self).spec_offset(),
            final(self).spec_selected() == if old(self).spec_items().len() > 0 {
                clamp_index(idx as int, old(self).spec_items().len() as int)
            } else {
                old(self).spec_selected()
            },
    {
        let len = self.filtered.len();
        if len > 0 {
            self.list.set_selected(idx, len);
        }
    }

    /// Selects the row before, wrapping to the last. Does nothing without
    /// items.
    pub fn select_prev(&mut self)
        ensures
            final(self).spec_items() == old(self).spec_items(),
            final(self).spec_filter() == old(self).spec_filter(),
            final(self).spec_offset() == old(self).spec_offset(),
            final(self).spec_selected() == if old(self).spec_items().len() > 0 {
                prev_index(old(self).spec_selected(), old(self).spec_items().len() as int)
            } else {
                old(self).spec_selected()
            },
    {
        let len = self.filtered.len();
        if len > 0 {
            self.list.select_prev(len);
        }
    }

    /// Selects the row after, wrapping to the first. Does nothing without
    /// items.
    pub fn select_next(&mut self)
        ensures
            final(self).spec_items() == old(self).spec_items(),
            final(self).spec_filter() == old(self).spec_filter(),
            final(self).spec_offset() == old(self).spec_offset(),
            final(self).spec_selected() == if old(self).spec_items().len() > 0 {
                next_index(old(self).spec_selected(), old(self).spec_items().len() as int)
            } else {
                old(self).spec_selected()
            },
    {
        let len = self.filtered.len();
        if len > 0 {
            self.list.select_next(len);
        }
    }

    /// Brings the selection into the list, then the window over the
    /// selection.
    pub fn clamp_and_scroll(&mut self, visible_items: usize)
        ensures
            final(self).spec_items() == old(self).spec_items(),
            final(self).spec_filter() == old(self).spec_filter(),
            final(self).spec_selected() == clamp_index(
                old(self).spec_selected(),
                old(self).spec_items().len() as int,
            ),
            final(self).spec_offset() == anchored_offset(
                final(self).spec_selected(),
                visible_items as int,
                old(self).spec_offset(),
            ),
    {
        let len = self.filtered.len();
        self.list.clamp_selection(len);
        self.list.update_offset(visible_items);
    }

    /// The selected row, whether or not there are items.
    pub fn selected_for_render(&self) -> (idx: usize)
        ensures
            idx == self.spec_selected(),
    {
        self.list.selected
    }

    /// The first visible row.
    pub fn viewport_offset(&self) -> (offset: usize)
        ensures
            offset == self.spec_offset(),
    {
        self.list.viewport_offset
    }
}

impl<T> Default for DropdownList<T> {
    fn default() -> (d: Self)
        ensures
            d.spec_items() == Seq::<T>::empty(),
            d.spec_filter() == Seq::<char>::empty(),
            d.spec_selected() == 0,
            d.spec_offset() == 0,
    {
        Self::new()
    }
}

/// Rows shown of `total_items` where `rows` rows are free: as many as fit,
/// but at least one.
pub open spec fn visible_rows_for(total_items: int, rows: int) -> int {
    if total_items <= rows {
        if total_items < 1 {
            1
        } else {
            total_items
        }
    } else if rows < 1 {
        1
    } else {
        rows
    }
}

/// Where a dropdown of `total_items` rows opens, and how many rows it
/// shows.
///
/// None without items. In the placement area where one is given, unless it
/// has no rows. Else below the input, as far as the frame has rows there,
/// else above the input, as far as there are rows above it; none where the
/// input starts at the top row.
pub open spec fn dropdown_area(
    frame_area: Rect,
    input_area: Rect,
    placement_area: Option<Rect>,
    total_items: int,
) -> Option<(Rect, int)> {
    let input_bottom = if input_area.y + input_area.height <= u16::MAX {
        input_area.y + input_area.height
    } else {
        u16::MAX as int
    };
    let space_below = if frame_area.height >= input_bottom {
        frame_area.height - input_bottom
    } else {
        0
    };
    if total_items <= 0 {
        None
    } else if let Some(area) = placement_area {
        if area.height == 0 {
            None
        } else {
            Some((area, visible_rows_for(total_items, area.height as int)))
        }
    } else if space_below > 0 {
        let visible = visible_rows_for(total_items, space_below);
        Some(
            (
                Rect {
                    x: input_area.x,
                    y: input_bottom as u16,
                    width: input_area.width,
                    height: visible as u16,
                },
                visible,
            ),
        )
    } else if input_area.y == 0 {
        None
    } else {
        let visible = visible_rows_for(total_items, input_area.y as int);
        Some(
            (
                Rect {
                    x: input_area.x,
                    y: (input_area.y - visible) as u16,
                    width: input_area.width,
                    height: visible as u16,
                },
                visible,
            ),
        )
    }
}

/// The same, with the number of rows as it is handed out.
pub open spec fn area_view(r: Option<(Rect, usize)>) -> Option<(Rect, int)> {
    match r {
        Some((area, rows)) => Some((area, rows as int)),
        None => None,
    }
}

/// Rows shown of `total_items` where `rows` rows are free.
fn visible_rows(total_items: usize, rows: usize) -> (visible: usize)
    ensures
        visible == visible_rows_for(total_items as int, rows as int),
{
    let fit = if total_items <= rows {
        total_items
    } else {
        rows
    };
    if fit < 1 {
        1
    } else {
        fit
    }
}

/// Finds the area of a dropdown of `total_items` rows for an input at
/// `input_area` in a frame of `frame_area`, and the number of rows that it
/// shows.
pub fn resolve_dropdown_area(
    frame_area: Rect,
    input_area: Rect,
    placement_area: Option<Rect>,
    total_items: usize,
) -> (r: Option<(Rect, usize)>)
    ensures
        area_view(r) == dropdown_area(frame_area, input_area, placement_area, total_items as int),
        r matches Some(found) ==> 1 <= found.1 && (placement_area is None ==> found.0.height
            == found.1),
{
    if total_items == 0 {
        return None;
    }
    if let Some(area) = placement_area {
        if area.height == 0 {
            return None;
        }
        let visible = visible_rows(total_items, area.height as usize);
        return Some((area, visible));
    }
    let input_bottom = input_area.y.saturating_add(input_area.height);
    let space_below = frame_area.height.saturating_sub(input_bottom);
    if space_below > 0 {
        let visible = visible_rows(total_items, space_below as usize);
        let area = Rect {
            x: input_area.x,
            y: input_bottom,
            width: input_area.width,
            height: visible as u16,
        };
        return Some((area, visible));
    }
    if input_area.y == 0 {
        return None;
    }
    let visible = visible_rows(total_items, input_area.y as usize);
    let height = visible as u16;
    let area = Rect {
        x: input_area.x,
        y: input_area.y - height,
        width: input_area.width,
        height,
    };
    Some((area, visible))
}

/// A dropdown over items that are matched by a key text: it shows the
/// items whose key matches the filter, the best match first.
pub struct FuzzyDropdown<T> {
    items: Vec<T>,
    list: DropdownList<usize>,
}

/// The score of each key for the filter.
pub open spec fn key_scores(keys: Seq<Seq<char>>, filter: Seq<char>) -> Seq<Option<i64>> {
    Seq::new(keys.len(), |i: int| skim_score(keys[i], filter))
}

/// The first `n` of `s`, all of it where it has no more.
pub open spec fn at_most<A>(s: Seq<A>, n: int) -> Seq<A> {
    if n < s.len() {
        s.take(n)
    } else {
        s
    }
}

/// The rows of a dropdown over items with these keys: for an empty
/// filter the first `empty_limit` items, in order; else the items whose
/// key matches the filter, the best score first and the earlier item
/// first among equal scores, no more than `filtered_limit` of them.
pub open spec fn dropdown_rows(
    keys: Seq<Seq<char>>,
    filter: Seq<char>,
    empty_limit: int,
    filtered_limit: int,
) -> Seq<usize> {
    if filter.len() == 0 {
        at_most(Seq::new(keys.len(), |i: int| i as usize), empty_limit)
    } else {
        at_most(
            indices_of(
                ranked(
                    scored_items(key_scores(keys, filter), keys.len() as int),
                    scored_items(key_scores(keys, filter), keys.len() as int).len() as int,
                ),
            ),
            filtered_limit,
        )
    }
}

impl<T> FuzzyDropdown<T> {
    /// All items, shown or not.
    pub closed spec fn spec_items(&self) -> Seq<T> {
        self.items@
    }

    /// The list of the rows shown: each row is the index of an item.
    pub closed spec fn spec_list(&self) -> DropdownList<usize> {
        self.list
    }

    /// A dropdown over `items` that shows nothing yet.
    pub fn new(items: Vec<T>) -> (d: Self)
        ensures
            d.spec_items() == items@,
            d.spec_list().spec_items() == Seq::<usize>::empty(),
            d.spec_list().spec_filter() == Seq::<char>::empty(),
            d.spec_list().spec_selected() == 0,
            d.spec_list().spec_offset() == 0,
    {
        Self { items, list: DropdownList::new() }
    }

    /// Whether there are no items at all.
    pub fn is_empty(&self) -> (b: bool)
        ensures
            b == (self.spec_items().len() == 0),
    {
        self.items.len() == 0
    }

    /// All items.
    pub fn items(&self) -> (items: &[T])
        ensures
            items@ == self.spec_items(),
    {
        self.items.as_slice()
    }

    /// Index of the selected row, where a row is shown.
    pub fn selected_index(&self) -> (idx: Option<usize>)
        ensures
            idx == if self.spec_list().spec_items().len() == 0 {
                None
            } else {
                Some(self.spec_list().spec_selected() as usize)
            },
    {
        self.list.selected_index()
    }

    /// Number of rows shown.
    pub fn visible_count(&self) -> (n: usize)
        ensures
            n == self.spec_list().spec_items().len(),
    {
        self.list.len()
    }

    /// Selects the row `idx`, or the last row where there are fewer.
    pub fn set_selected_index(&mut self, idx: usize)
        ensures
            final(self).spec_items() == old(self).spec_items(),
            final(self).spec_list().spec_items() == old(self).spec_list().spec_items(),
            final(self).spec_list().spec_filter() == old(self).spec_list().spec_filter(),
            final(self).spec_list().spec_offset() == old(self).spec_list().spec_offset(),
            final(self).spec_list().spec_selected() == if old(self).spec_list().spec_items().len()
                == 0 {
                old(self).spec_list().spec_selected()
            } else {
                clamp_index(idx as int, old(self).spec_list().spec_items().len() as int)
            },
    {
        self.list.set_selected(idx);
    }

    /// Selects the row before the selected one, the last before the first.
    pub fn select_previous(&mut self)
        ensures
            final(self).spec_items() == old(self).spec_items(),
            final(self).spec_list().spec_items() == old(self).spec_list().spec_items(),
            final(self).spec_list().spec_filter() == old(self).spec_list().spec_filter(),
            final(self).spec_list().spec_offset() == old(self).spec_list().spec_offset(),
            final(self).spec_list().spec_selected() == if old(self).spec_list().spec_items().len()
                == 0 {
                old(self).spec_list().spec_selected()
            } else {
                prev_index(
                    old(self).spec_list().spec_selected(),
                    old(self).spec_list().spec_items().len() as int,
                )
            },
    {
        self.list.select_prev();
    }

    /// Selects the row behind the selected one, the first behind the last.
    pub fn select_next(&mut self)
        ensures
            final(self).spec_items() == old(self).spec_items(),
            final(self).spec_list().spec_items() == old(self).spec_list().spec_items(),
            final(self).spec_list().spec_filter() == old(self).spec_list().spec_filter(),
            final(self).spec_list().spec_offset() == old(self).spec_list().spec_offset(),
            final(self).spec_list().spec_selected() == if old(self).spec_list().spec_items().len()
                == 0 {
                old(self).spec_list().spec_selected()
            } else {
                next_index(
                    old(self).spec_list().spec_selected(),
                    old(self).spec_list().spec_items().len() as int,
                )
            },
    {
        self.list.select_next();
    }

    /// Puts `items` in the place of the items; the rows shown stay until
    /// the filter is applied again.
    pub fn update_items(&mut self, items: Vec<T>)
        ensures
            final(self).spec_items() == items@,
            final(self).spec_list() == old(self).spec_list(),
    {
        self.items = items;
    }

    /// The list of the rows shown.
    pub fn list(&self) -> (list: &DropdownList<usize>)
        ensures
            *list == self.spec_list(),
    {
        &self.list
    }

    /// Filters the items by their keys, `keys[i]` being the key of item
    /// `i`; items without a key are not shown. The first row is selected.
    pub fn update_filter(
        &mut self,
        filter: &str,
        empty_limit: usize,
        filtered_limit: usize,
        keys: &Vec<String>,
    )
        ensures
            final(self).spec_items() == old(self).spec_items(),
            final(self).spec_list().spec_items() == dropdown_rows(
                at_most(views_of(keys@), old(self).spec_items().len() as int),
                filter@,
                empty_limit as int,
                filtered_limit as int,
            ),
            final(self).spec_list().spec_filter() == filter@,
            final(self).spec_list().spec_selected() == 0,
            final(self).spec_list().spec_offset() == 0,
    {
        let count = if keys.len() < self.items.len() {
            keys.len()
        } else {
            self.items.len()
        };
        let ghost used = at_most(views_of(keys@), self.items@.len() as int);
        proof {
            assert(used.len() == count);
        }
        let empty = chars_of(filter).len() == 0;
        let mut rows = if empty {
            all_indices(count)
        } else {
            let mut scores: Vec<Option<i64>> = Vec::new();
            let mut k: usize = 0;
            while k < count
                invariant
                    k <= count,
                    count <= keys@.len(),
                    used.len() == count,
                    forall|i: int| 0 <= i < count ==> used[i] == keys@[i]@,
                    scores@.len() == k,
                    forall|i: int|
                        0 <= i < k ==> #[trigger] scores@[i] == skim_score(used[i], filter@),
                decreases count - k,
            {
                scores.push(fuzzy_score(keys[k].as_str(), filter));
                k = k + 1;
            }
            proof {
                assert(scores@ =~= key_scores(used, filter@));
            }
            rank_scored(&scores)
        };
        let limit = if empty {
            empty_limit
        } else {
            filtered_limit
        };
        let ghost ranked_rows = rows@;
        rows.truncate(limit);
        proof {
            assert(rows@ =~= at_most(ranked_rows, limit as int));
        }
        self.list.reset(filter, rows);
    }
}

} // verus!
