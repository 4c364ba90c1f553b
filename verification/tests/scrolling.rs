use nodecode_terminal_kit::components::dropdown::{resolve_dropdown_area, DropdownList};
use nodecode_terminal_kit::components::list::{
    calculate_viewport_offset_internal, index_at, index_at_content, select_next, select_prev,
    ListState,
};
use nodecode_terminal_kit::primitives::geom::{contains, inner_1px, Rect};
use nodecode_terminal_kit::primitives::scrollbar::{
    bar_geometry, compute_thumb, desired_from_click, internal_input_geometry,
    map_thumb_to_scroll_u16, map_thumb_to_scroll_u32, start_drag,
};

#[test]
fn viewport_anchors_a_selection_below_the_window_to_the_last_row() {
    // total = 20, visible_height = 5, offset = 0, selected jumps to 12.
    assert_eq!(calculate_viewport_offset_internal(12, 5, 0), 8);
    let mut state = ListState::new();
    state.set_selected(12, 20);
    state.update_offset(5);
    assert_eq!(state.selected, 12);
    assert_eq!(state.viewport_offset, 8);
}

#[test]
fn viewport_anchors_a_selection_above_the_window_to_the_first_row() {
    assert_eq!(calculate_viewport_offset_internal(3, 5, 8), 3);
}

#[test]
fn viewport_keeps_the_offset_of_a_visible_selection() {
    assert_eq!(calculate_viewport_offset_internal(9, 5, 8), 8);
    assert_eq!(calculate_viewport_offset_internal(12, 5, 8), 8);
    assert_eq!(calculate_viewport_offset_internal(13, 5, 8), 9);
}

#[test]
fn viewport_treats_height_zero_as_one() {
    assert_eq!(calculate_viewport_offset_internal(4, 0, 0), 4);
    assert_eq!(calculate_viewport_offset_internal(4, 1, 0), 4);
}

#[test]
fn viewport_does_not_overflow_at_the_largest_offset() {
    assert_eq!(
        calculate_viewport_offset_internal(usize::MAX, 5, usize::MAX - 1),
        usize::MAX - 1
    );
}

#[test]
fn viewport_contains_the_selection_after_every_update() {
    let mut state = ListState::new();
    let total = 50usize;
    for height in 1..7usize {
        for step in [0usize, 49, 3, 17, 18, 2, 48, 25, 0, 30] {
            state.set_selected(step, total);
            state.update_offset(height);
            assert!(state.viewport_offset <= state.selected);
            assert!(state.selected < state.viewport_offset + height);
        }
    }
}

#[test]
fn list_selection_wraps_both_ways() {
    assert_eq!(select_next(0, 3), 1);
    assert_eq!(select_next(2, 3), 0);
    assert_eq!(select_next(7, 3), 2);
    assert_eq!(select_next(usize::MAX, 4), 0);
    assert_eq!(select_next(5, 0), 0);
    assert_eq!(select_prev(0, 3), 2);
    assert_eq!(select_prev(2, 3), 1);
    assert_eq!(select_prev(2, 0), 0);
}

#[test]
fn list_state_clamps_and_jumps() {
    let mut state = ListState::default();
    state.selected = 9;
    state.clamp_selection(4);
    assert_eq!(state.selected, 3);
    state.clamp_selection(0);
    assert_eq!(state.selected, 0);
    state.jump_bottom(6);
    assert_eq!(state.selected, 5);
    state.jump_bottom(0);
    assert_eq!(state.selected, 5);
    state.jump_top();
    assert_eq!(state.selected, 0);
    state.select_prev(6);
    assert_eq!(state.selected, 5);
    state.select_next(6);
    assert_eq!(state.selected, 0);
}

#[test]
fn list_state_scrolls_and_pages_within_the_list() {
    let mut state = ListState::new();
    state.scroll_lines(3, 10);
    assert_eq!(state.selected, 3);
    state.scroll_lines(-5, 10);
    assert_eq!(state.selected, 0);
    state.scroll_lines(isize::MAX, 10);
    assert_eq!(state.selected, 9);
    state.scroll_lines(isize::MIN, 10);
    assert_eq!(state.selected, 0);
    state.scroll_lines(4, 0);
    assert_eq!(state.selected, 0);
    state.page_down(4, 10);
    assert_eq!(state.selected, 4);
    state.page_down(0, 10);
    assert_eq!(state.selected, 5);
    state.page_down(40, 10);
    assert_eq!(state.selected, 9);
    state.page_up(4, 10);
    assert_eq!(state.selected, 5);
    state.page_up(0, 10);
    assert_eq!(state.selected, 4);
    state.page_up(40, 10);
    assert_eq!(state.selected, 0);
}

#[test]
fn geometry_of_rectangles() {
    let r = Rect::new(2, 3, 4, 5);
    assert!(contains(r, 2, 3));
    assert!(contains(r, 5, 7));
    assert!(!contains(r, 6, 3));
    assert!(!contains(r, 2, 8));
    assert!(!contains(r, 1, 3));
    assert!(!contains(Rect::new(65535, 0, 5, 5), 0, 0));
    assert!(contains(Rect::new(65535, 0, 5, 5), 65535, 0));
    assert_eq!(inner_1px(r), Rect::new(3, 4, 2, 3));
    assert_eq!(inner_1px(Rect::new(0, 0, 1, 2)), Rect::new(1, 1, 0, 0));
    assert_eq!(
        inner_1px(Rect::new(65535, 65535, 9, 9)),
        Rect::new(65535, 65535, 7, 7)
    );
}

#[test]
fn index_under_the_pointer() {
    let content = Rect::new(1, 1, 10, 5);
    assert_eq!(index_at_content(content, 0, 0, 20, 1, 1), Some(0));
    assert_eq!(index_at_content(content, 0, 0, 20, 5, 4), Some(3));
    // The offset is anchored to the selection before the row is added.
    assert_eq!(index_at_content(content, 12, 0, 20, 5, 1), Some(8));
    assert_eq!(index_at_content(content, 12, 0, 20, 5, 5), Some(12));
    // Rows below the last item give the last item.
    assert_eq!(index_at_content(content, 0, 0, 2, 5, 4), Some(1));
    assert_eq!(index_at_content(content, 0, 0, 0, 5, 4), None);
    assert_eq!(index_at_content(content, 0, 0, 20, 0, 1), None);
    assert_eq!(index_at_content(content, 0, 0, 20, 5, 6), None);
    assert_eq!(index_at_content(Rect::new(1, 1, 10, 0), 0, 0, 20, 5, 1), None);
    // The bordered variant looks inside the border.
    let bordered = Rect::new(0, 0, 12, 7);
    assert_eq!(index_at(bordered, 0, 0, 20, 5, 4), Some(3));
    assert_eq!(index_at(bordered, 0, 0, 20, 0, 0), None);
}

#[test]
fn scrollbar_thumb_of_the_scenario() {
    // track_height = 10, visible_count = 5, total_count = 20, scroll_offset = 5.
    assert_eq!(compute_thumb(10, 5, 20, 5), (2, 2, 15));
}

#[test]
fn scrollbar_thumb_edges() {
    assert_eq!(compute_thumb(10, 5, 20, 0), (2, 0, 15));
    assert_eq!(compute_thumb(10, 5, 20, 15), (2, 8, 15));
    // A scroll offset past the end is clamped.
    assert_eq!(compute_thumb(10, 5, 20, 99), (2, 8, 15));
    // The thumb is at least one row high.
    assert_eq!(compute_thumb(10, 1, 1000, 500), (1, 4, 999));
    assert_eq!(compute_thumb(10, 5, 0, 0), (1, 0, 0));
    // Everything visible: no scrolling, thumb at the top.
    assert_eq!(compute_thumb(10, 20, 20, 3), (10, 0, 0));
    assert_eq!(compute_thumb(0, 5, 20, 5), (1, 0, 15));
    // The largest values do not overflow.
    assert_eq!(
        compute_thumb(65535, 1, u32::MAX, u32::MAX - 2),
        (1, 65533, u32::MAX - 1)
    );
    assert_eq!(compute_thumb(65535, 65535, 1, 0), (65535, 0, 0));
}

#[test]
fn scrollbar_thumb_stays_on_the_track() {
    for track in 1..12u16 {
        for total in 1..30u32 {
            for visible in 1..=(total.min(12) as u16) {
                let max_scroll = total - visible as u32;
                for scroll in 0..=max_scroll {
                    let (h, top, max) = compute_thumb(track, visible, total, scroll);
                    assert_eq!(max, max_scroll);
                    assert!(1 <= h && h <= track);
                    assert!(top + h <= track);
                }
            }
        }
    }
}

#[test]
fn scrollbar_dragging() {
    assert_eq!(start_drag(5, 4, 3), (true, 1));
    assert_eq!(start_drag(4, 4, 3), (true, 0));
    assert_eq!(start_drag(7, 4, 3), (false, 1));
    assert_eq!(start_drag(3, 4, 6), (false, 3));
    assert_eq!(start_drag(65535, 65530, 10), (false, 5));
    assert_eq!(desired_from_click(9, 2, 10, 1, 2), (6, 8));
    assert_eq!(desired_from_click(30, 2, 10, 1, 2), (8, 8));
    assert_eq!(desired_from_click(1, 2, 10, 1, 2), (0, 8));
    assert_eq!(desired_from_click(9, 2, 3, 0, 5), (0, 0));
    assert_eq!(map_thumb_to_scroll_u32(2, 8, 15), 3);
    assert_eq!(map_thumb_to_scroll_u32(8, 8, 15), 15);
    assert_eq!(map_thumb_to_scroll_u32(2, 0, 15), 0);
    assert_eq!(map_thumb_to_scroll_u32(2, 8, 0), 0);
    assert_eq!(map_thumb_to_scroll_u32(65535, 1, u32::MAX), u32::MAX);
    assert_eq!(map_thumb_to_scroll_u16(2, 8, 15), 3);
    assert_eq!(map_thumb_to_scroll_u16(8, 8, 15), 15);
    assert_eq!(map_thumb_to_scroll_u16(0, 0, 15), 0);
    assert_eq!(map_thumb_to_scroll_u16(65535, 1, 65535), 65535);
}

#[test]
fn scrollbar_places() {
    let area = Rect::new(2, 3, 10, 6);
    assert_eq!(bar_geometry(area, false), (11, 3, 6));
    assert_eq!(bar_geometry(area, true), (11, 3, 5));
    assert_eq!(bar_geometry(Rect::new(2, 3, 0, 0), true), (2, 3, 0));
    assert_eq!(bar_geometry(Rect::new(65535, 0, 9, 1), false), (65535, 0, 1));
    assert_eq!(internal_input_geometry(area, 5, 20, 5), Some((11, 3, 5, 4, 1, 15)));
    assert_eq!(internal_input_geometry(area, 5, 5, 0), None);
    assert_eq!(internal_input_geometry(area, 0, 5, 0), None);
    assert_eq!(internal_input_geometry(Rect::new(0, 0, 0, 5), 2, 5, 0), None);
    assert_eq!(internal_input_geometry(Rect::new(0, 0, 5, 0), 2, 5, 0), None);
}

#[test]
fn dropdown_state() {
    let mut list: DropdownList<&str> = DropdownList::new();
    assert!(list.is_empty());
    assert_eq!(list.selected_index(), None);
    assert_eq!(list.selected(), None);
    list.select_next();
    assert_eq!(list.selected_for_render(), 0);
    list.reset("ab", vec!["abc", "cab", "drab"]);
    assert_eq!(list.len(), 3);
    assert_eq!(list.items(), &["abc", "cab", "drab"]);
    assert_eq!(list.filter_text(), "ab");
    assert_eq!(list.selected_index(), Some(0));
    list.select_prev();
    assert_eq!(list.selected(), Some(&"drab"));
    list.select_next();
    assert_eq!(list.selected(), Some(&"abc"));
    list.set_selected(9);
    assert_eq!(list.selected_index(), Some(2));
    list.clamp_and_scroll(2);
    assert_eq!(list.viewport_offset(), 1);
    list.reset("", vec!["x"]);
    assert_eq!(list.selected_index(), Some(0));
    assert_eq!(list.viewport_offset(), 0);
    let other: DropdownList<u8> = DropdownList::default();
    assert!(other.is_empty());
}

#[test]
fn dropdown_opens_below_above_or_in_place() {
    let frame = Rect::new(0, 0, 80, 24);
    let input = Rect::new(4, 10, 30, 1);
    assert_eq!(
        resolve_dropdown_area(frame, input, None, 5),
        Some((Rect::new(4, 11, 30, 5), 5))
    );
    assert_eq!(
        resolve_dropdown_area(frame, input, None, 40),
        Some((Rect::new(4, 11, 30, 13), 13))
    );
    let low = Rect::new(4, 23, 30, 1);
    assert_eq!(
        resolve_dropdown_area(frame, low, None, 5),
        Some((Rect::new(4, 18, 30, 5), 5))
    );
    assert_eq!(
        resolve_dropdown_area(Rect::new(0, 0, 80, 1), Rect::new(0, 0, 80, 1), None, 5),
        None
    );
    let place = Rect::new(1, 2, 20, 3);
    assert_eq!(resolve_dropdown_area(frame, input, Some(place), 5), Some((place, 3)));
    assert_eq!(
        resolve_dropdown_area(frame, input, Some(Rect::new(1, 2, 20, 0)), 5),
        None
    );
    assert_eq!(resolve_dropdown_area(frame, input, None, 0), None);
}

#[test]
fn dragging_agrees_with_scrolling_up_to_rounding() {
    // Track of 10 rows, 5 of 20 rows visible: the thumb is 2 rows high and
    // has 8 rows of room; the scroll range is 0..=15.
    for scroll in 0..=15u32 {
        let (thumb_h, top, max_scroll) = compute_thumb(10, 5, 20, scroll);
        assert_eq!((thumb_h, max_scroll), (2, 15));
        let back = map_thumb_to_scroll_u32(top, 8, max_scroll);
        assert!(back <= scroll);
        let (_, again, _) = compute_thumb(10, 5, 20, back);
        assert!(again <= top && top - again <= 1);
    }
    assert_eq!(map_thumb_to_scroll_u32(compute_thumb(10, 5, 20, 0).1, 8, 15), 0);
    assert_eq!(map_thumb_to_scroll_u32(compute_thumb(10, 5, 20, 15).1, 8, 15), 15);
}
