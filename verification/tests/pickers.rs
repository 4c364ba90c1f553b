use fuzzy_matcher::skim::SkimMatcherV2;
use fuzzy_matcher::FuzzyMatcher;
use nodecode_terminal_kit::components::dropdown::FuzzyDropdown;
use nodecode_terminal_kit::components::picker_dialog::{
    picker_key_msg, picker_key_msg_with, picker_mouse_msg,
};
use nodecode_terminal_kit::layout::fuzzy::{
    all_indices, best_field_score, fuzzy_indices_any_field, fuzzy_indices_tokenized_surface,
    fuzzy_match_tokenized_surface, fuzzy_match_tokenized_surface_with, rank_indices, rank_scored,
    split_words, tokenized_score, trim,
};
use nodecode_terminal_kit::layout::picker_kit::{
    dialog_opts_hooks, filter_indices, key_to_picker_msg, mouse_msg_in,
    mouse_select_update_offset, mouse_to_picker_msg, own_key_msg, picker_update_state,
    plain_key_msg, search_msg, FilterMode, MouseButton, MouseEvent, MouseEventKind,
    PickerHooks, PickerMsg, PickerOptions, PickerState,
};
use nodecode_terminal_kit::components::list::ListState;
use nodecode_terminal_kit::primitives::geom::Rect;
use nodecode_terminal_kit::runtime::keys::{KeyCode, KeyEvent, KeyModifiers};

fn owned(parts: &[&str]) -> Vec<String> {
    parts.iter().map(|p| p.to_string()).collect()
}

fn key(code: KeyCode) -> KeyEvent {
    KeyEvent::new(code, KeyModifiers::none())
}

fn score(choice: &str, pattern: &str) -> Option<i64> {
    SkimMatcherV2::default().fuzzy_match(choice, pattern)
}

fn surfaces() -> Vec<String> {
    owned(&["src/main.rs", "README.md", "src/lib.rs", "Cargo.toml", "docs/main page.md"])
}

fn surface_opts() -> PickerOptions {
    PickerOptions::no_section(FilterMode::TokenizedSurface { surface: surfaces() })
}

fn open_picker() -> PickerState<u32> {
    let mut state = PickerState::new();
    state.open(vec![10, 11, 12, 13, 14], &surface_opts());
    state
}

#[test]
fn words_and_trimming() {
    assert_eq!(split_words("  ab  cd\te "), owned(&["ab", "cd", "e"]));
    assert!(split_words("   ").is_empty());
    assert!(split_words("").is_empty());
    assert_eq!(trim("  a b \n"), "a b");
    assert_eq!(trim("   "), "");
    assert_eq!(trim("ab"), "ab");
}

#[test]
fn token_scores_add_up_and_the_whole_query_boosts() {
    assert_eq!(tokenized_score(&vec![Some(10), Some(5)], None), Some(15));
    assert_eq!(tokenized_score(&vec![Some(10), Some(5)], Some(20)), Some(30));
    assert_eq!(tokenized_score(&vec![Some(10), Some(5)], Some(1)), Some(15));
    assert_eq!(tokenized_score(&vec![Some(10), None], Some(99)), None);
    assert_eq!(tokenized_score(&vec![], None), Some(0));
    assert_eq!(tokenized_score(&vec![], Some(7)), Some(7));
    assert_eq!(tokenized_score(&vec![Some(i64::MAX), Some(1)], None), Some(i64::MAX));
    assert_eq!(tokenized_score(&vec![Some(i64::MIN), Some(-1)], None), Some(i64::MIN));
}

#[test]
fn a_surface_is_scored_by_the_matcher() {
    let whole = score("src/main.rs", "main").unwrap();
    assert!(whole > 0);
    assert_eq!(fuzzy_match_tokenized_surface_with("main", "src/main.rs"), Some(whole + 5));
    let s = score("src/main.rs", "src").unwrap();
    let m = score("src/main.rs", "rs").unwrap();
    let expected = match score("src/main.rs", "src rs") {
        Some(full) => (s + m).max(full + 10),
        None => s + m,
    };
    assert_eq!(fuzzy_match_tokenized_surface_with(" src rs ", "src/main.rs"), Some(expected));
    assert_eq!(fuzzy_match_tokenized_surface_with("zzz", "src/main.rs"), None);
    assert_eq!(fuzzy_match_tokenized_surface_with("src zzz", "src/main.rs"), None);
    assert_eq!(fuzzy_match_tokenized_surface_with("   ", "src/main.rs"), Some(0));
    assert_eq!(fuzzy_match_tokenized_surface_with("", ""), Some(0));
    // Both sides are brought to lower case first.
    assert_eq!(fuzzy_match_tokenized_surface("MAIN", "SRC/Main.rs"), Some(whole + 5));
}

#[test]
fn rankings_go_from_the_best_score_down_and_keep_ties_in_order() {
    assert_eq!(rank_indices(&vec![(0, 5), (1, 9), (2, 5), (3, 7), (4, 9)]), vec![1, 4, 3, 0, 2]);
    assert!(rank_indices(&Vec::new()).is_empty());
    assert_eq!(rank_scored(&vec![Some(1), None, Some(3), Some(1), None]), vec![2, 0, 3]);
    assert_eq!(all_indices(4), vec![0, 1, 2, 3]);
    assert!(all_indices(0).is_empty());
}

#[test]
fn any_field_filter_matches_the_reference() {
    let fields: Vec<Vec<String>> = vec![
        owned(&["alpha", "first"]),
        owned(&["", "beta"]),
        owned(&["gamma", "alphabet"]),
        owned(&[]),
        owned(&["delta"]),
    ];
    assert_eq!(
        best_field_score(&fields[2], "alp"),
        [score("gamma", "alp"), score("alphabet", "alp")].into_iter().flatten().max()
    );
    assert_eq!(best_field_score(&fields[1], "x"), None);
    assert_eq!(best_field_score(&fields[3], "a"), None);
    for query in ["alp", "a", "beta", "zzz", "t"] {
        let mut scored: Vec<(usize, i64)> = fields
            .iter()
            .enumerate()
            .filter_map(|(i, fs)| {
                fs.iter()
                    .filter(|s| !s.is_empty())
                    .filter_map(|s| score(s, query))
                    .max()
                    .map(|best| (i, best))
            })
            .collect();
        scored.sort_by(|a, b| b.1.cmp(&a.1));
        let expected: Vec<usize> = scored.into_iter().map(|(i, _)| i).collect();
        assert_eq!(fuzzy_indices_any_field(&fields, query), expected, "query {query:?}");
    }
    assert_eq!(fuzzy_indices_any_field(&fields, "  "), vec![0, 1, 2, 3, 4]);
    assert_eq!(fuzzy_indices_any_field(&fields, "alp"), vec![0, 2]);
    assert!(fuzzy_indices_any_field(&fields, "zzz").is_empty());
}

#[test]
fn tokenized_filter_matches_the_reference() {
    let surfaces = surfaces();
    for query in ["main", "src rs", "MD", " main ", "zzz", "m p"] {
        let q = query.to_lowercase();
        let tokens: Vec<&str> = q.split_whitespace().collect();
        let mut scored: Vec<(usize, i64)> = surfaces
            .iter()
            .enumerate()
            .filter_map(|(i, s)| {
                let surface = s.to_lowercase();
                let mut total: i64 = 0;
                for t in &tokens {
                    total += score(&surface, t)?;
                }
                if let Some(full) = score(&surface, &q) {
                    total = total.max(full + (tokens.len() as i64) * 5);
                }
                Some((i, total))
            })
            .collect();
        scored.sort_by(|a, b| b.1.cmp(&a.1));
        let expected: Vec<usize> = scored.into_iter().map(|(i, _)| i).collect();
        assert_eq!(fuzzy_indices_tokenized_surface(&surfaces, query), expected, "query {query:?}");
    }
    assert_eq!(fuzzy_indices_tokenized_surface(&surfaces, ""), vec![0, 1, 2, 3, 4]);
    let found = fuzzy_indices_tokenized_surface(&surfaces, "main");
    assert_eq!(found.len(), 2);
    assert!(found.contains(&0) && found.contains(&4));
}

#[test]
fn a_picker_opens_filters_and_closes() {
    let opts = surface_opts();
    let mut state: PickerState<u32> = PickerState::new();
    assert!(!state.is_open && state.items.is_empty());
    state.open_loading();
    assert!(state.is_open && state.is_loading);
    state.open(vec![10, 11, 12, 13, 14], &opts);
    assert!(state.is_open && !state.is_loading);
    assert_eq!(state.filtered_indices, vec![0, 1, 2, 3, 4]);
    assert_eq!(state.selectable_len(), 5);
    assert_eq!(state.to_item_index(2), Some(2));
    assert_eq!(state.to_item_index(5), None);
    state.list.selected = 4;
    picker_update_state(&mut state, PickerMsg::<()>::UpdateSearch("lib".to_string()), &opts);
    assert_eq!(state.search_input.text(), "lib");
    assert_eq!(state.filtered_indices, filter_indices(&opts.filter, "lib"));
    assert_eq!(state.filtered_indices, vec![2]);
    assert_eq!(state.to_item_index(0), Some(2));
    assert_eq!((state.list.selected, state.list.viewport_offset), (0, 0));
    picker_update_state(&mut state, PickerMsg::<()>::ClearSearch, &opts);
    assert_eq!(state.filtered_indices, vec![0, 1, 2, 3, 4]);
    picker_update_state(&mut state, PickerMsg::<()>::Close, &opts);
    assert!(!state.is_open);
    assert!(state.filtered_indices.is_empty());
    assert_eq!(state.items, vec![10, 11, 12, 13, 14]);
    let fresh: PickerState<u32> = PickerState::default();
    assert!(!fresh.is_open);
}

#[test]
fn the_selection_stays_within_a_shrinking_filter() {
    let opts = surface_opts();
    let mut state = open_picker();
    state.list.selected = 4;
    state.search_input.set_text("main".to_string());
    state.update_filter(&opts);
    assert_eq!(state.filtered_indices.len(), 2);
    assert_eq!(state.list.selected, 1);
    state.search_input.set_text("zzz".to_string());
    state.update_filter(&opts);
    assert!(state.filtered_indices.is_empty());
    assert_eq!(state.list.selected, 0);
}

#[test]
fn messages_move_the_selection() {
    let opts = surface_opts();
    let mut state = open_picker();
    picker_update_state(&mut state, PickerMsg::<()>::SelectPrevious, &opts);
    assert_eq!(state.list.selected, 4);
    picker_update_state(&mut state, PickerMsg::<()>::SelectNext, &opts);
    assert_eq!(state.list.selected, 0);
    picker_update_state(&mut state, PickerMsg::<()>::SelectIndex(9), &opts);
    assert_eq!(state.list.selected, 4);
    picker_update_state(&mut state, PickerMsg::<()>::JumpTop, &opts);
    assert_eq!(state.list.selected, 0);
    picker_update_state(&mut state, PickerMsg::<()>::PageDown(2), &opts);
    assert_eq!(state.list.selected, 2);
    picker_update_state(&mut state, PickerMsg::<()>::ScrollDown, &opts);
    assert_eq!(state.list.selected, 4);
    picker_update_state(&mut state, PickerMsg::<()>::ScrollUp, &opts);
    assert_eq!(state.list.selected, 1);
    picker_update_state(&mut state, PickerMsg::<()>::PageUp(5), &opts);
    assert_eq!(state.list.selected, 0);
    picker_update_state(&mut state, PickerMsg::<()>::JumpBottom, &opts);
    assert_eq!(state.list.selected, 4);
    picker_update_state(&mut state, PickerMsg::<()>::Confirm, &opts);
    picker_update_state(&mut state, PickerMsg::Custom(7u8), &opts);
    assert_eq!(state.list.selected, 4);
    assert!(state.is_open);
}

#[test]
fn the_picker_takes_its_own_keys() {
    assert!(matches!(own_key_msg::<()>(key(KeyCode::Esc), None), Some(PickerMsg::Close)));
    assert!(matches!(own_key_msg::<()>(key(KeyCode::Enter), None), Some(PickerMsg::Confirm)));
    assert!(matches!(own_key_msg::<()>(key(KeyCode::Up), None), Some(PickerMsg::SelectPrevious)));
    assert!(matches!(own_key_msg::<()>(key(KeyCode::Down), None), Some(PickerMsg::SelectNext)));
    assert!(matches!(own_key_msg::<()>(key(KeyCode::Home), None), Some(PickerMsg::JumpTop)));
    assert!(matches!(own_key_msg::<()>(key(KeyCode::End), None), Some(PickerMsg::JumpBottom)));
    assert!(matches!(own_key_msg::<()>(key(KeyCode::PageUp), None), Some(PickerMsg::PageUp(10))));
    assert!(matches!(
        own_key_msg::<()>(key(KeyCode::PageDown), Some(4)),
        Some(PickerMsg::PageDown(4))
    ));
    assert!(own_key_msg::<()>(key(KeyCode::Char('x')), None).is_none());
    assert!(matches!(search_msg::<()>(String::new()), PickerMsg::ClearSearch));
    assert!(matches!(search_msg::<()>("ab".to_string()), PickerMsg::UpdateSearch(q) if q == "ab"));
}

#[test]
fn other_keys_edit_the_search() {
    let opts = surface_opts();
    let mut state = open_picker();
    let typed: Option<PickerMsg<()>> = picker_key_msg(&mut state, key(KeyCode::Char('m')), &opts);
    assert!(matches!(typed, Some(PickerMsg::UpdateSearch(q)) if q == "m"));
    assert_eq!(state.search_input.text(), "m");
    let erased: Option<PickerMsg<()>> = plain_key_msg(&mut state, key(KeyCode::Backspace), None);
    assert!(matches!(erased, Some(PickerMsg::ClearSearch)));
    let nothing: Option<PickerMsg<()>> = plain_key_msg(&mut state, key(KeyCode::Backspace), None);
    assert!(nothing.is_none());
    let own: Option<PickerMsg<()>> = picker_key_msg(&mut state, key(KeyCode::Down), &opts);
    assert!(matches!(own, Some(PickerMsg::SelectNext)));
    assert_eq!(state.list.selected, 0);
    let mut closed: PickerState<u32> = PickerState::new();
    let ignored: Option<PickerMsg<()>> = picker_key_msg(&mut closed, key(KeyCode::Char('m')), &opts);
    assert!(ignored.is_none());
    assert_eq!(closed.search_input.text(), "");
}

struct Hooks;

impl PickerHooks<u32, u8> for Hooks {
    fn before_key(&self, _state: &PickerState<u32>, key: KeyEvent) -> Option<PickerMsg<u8>> {
        match key.code {
            KeyCode::Enter => Some(PickerMsg::Custom(1)),
            _ => None,
        }
    }

    fn after_key(&self, _state: &PickerState<u32>, key: KeyEvent) -> Option<PickerMsg<u8>> {
        match key.code {
            KeyCode::F(2) => Some(PickerMsg::Custom(2)),
            _ => None,
        }
    }
}

#[test]
fn hooks_are_asked_before_and_after() {
    let opts = surface_opts();
    let mut state = open_picker();
    assert!(matches!(
        key_to_picker_msg(&mut state, key(KeyCode::Enter), None, &Hooks),
        Some(PickerMsg::Custom(1))
    ));
    assert!(matches!(
        picker_key_msg_with(&mut state, key(KeyCode::F(2)), None, &opts, &Hooks),
        Some(PickerMsg::Custom(2))
    ));
    assert!(matches!(
        key_to_picker_msg(&mut state, key(KeyCode::Esc), None, &Hooks),
        Some(PickerMsg::Close)
    ));
    let typed = key_to_picker_msg(&mut state, key(KeyCode::Char('x')), None, &Hooks);
    assert!(matches!(typed, Some(PickerMsg::UpdateSearch(q)) if q == "x"));
    let plain: Option<PickerMsg<()>> =
        key_to_picker_msg(&mut state, key(KeyCode::Enter), None, &());
    assert!(matches!(plain, Some(PickerMsg::Confirm)));
}

fn mouse(kind: MouseEventKind, column: u16, row: u16) -> MouseEvent {
    MouseEvent { kind, column, row }
}

#[test]
fn the_mouse_selects_scrolls_and_confirms() {
    let mut state = open_picker();
    let list_area = Rect::new(0, 0, 20, 7);
    let over: Option<PickerMsg<()>> =
        mouse_msg_in(&mut state, mouse(MouseEventKind::Moved, 3, 2), list_area);
    assert!(matches!(over, Some(PickerMsg::SelectIndex(1))));
    let outside: Option<PickerMsg<()>> =
        mouse_msg_in(&mut state, mouse(MouseEventKind::Moved, 3, 0), list_area);
    assert!(outside.is_none());
    let wheel: Option<PickerMsg<()>> =
        mouse_msg_in(&mut state, mouse(MouseEventKind::ScrollDown, 0, 0), list_area);
    assert!(matches!(wheel, Some(PickerMsg::ScrollDown)));
    let press: Option<PickerMsg<()>> =
        mouse_msg_in(&mut state, mouse(MouseEventKind::Down(MouseButton::Left), 3, 4), list_area);
    assert!(matches!(press, Some(PickerMsg::SelectIndex(3))));
    assert_eq!(state.list.selected, 3);
    let release: Option<PickerMsg<()>> =
        mouse_msg_in(&mut state, mouse(MouseEventKind::Up(MouseButton::Left), 3, 4), list_area);
    assert!(matches!(release, Some(PickerMsg::Confirm)));
    let right: Option<PickerMsg<()>> =
        mouse_msg_in(&mut state, mouse(MouseEventKind::Down(MouseButton::Right), 3, 4), list_area);
    assert!(right.is_none());
    let mut list = ListState::new();
    assert_eq!(mouse_select_update_offset(&mut list, list_area, 5, 5, 3, 5), Some(4));
    assert_eq!(list.selected, 4);
    assert_eq!(mouse_select_update_offset(&mut list, list_area, 5, 5, 3, 6), None);
}

#[test]
fn the_mouse_is_mapped_through_the_dialog() {
    let mut state = open_picker();
    let area = Rect::new(0, 0, 100, 40);
    // The dialog is 60 by 20 at (20, 10); its body starts at row 14.
    let hit: Option<PickerMsg<()>> = mouse_to_picker_msg(
        &mut state,
        mouse(MouseEventKind::Moved, 30, 16),
        area,
        dialog_opts_hooks(),
        100,
        40,
        false,
    );
    assert!(matches!(hit, Some(PickerMsg::SelectIndex(1))));
    let miss: Option<PickerMsg<()>> = picker_mouse_msg(
        &mut state,
        mouse(MouseEventKind::Moved, 5, 5),
        area,
        dialog_opts_hooks(),
        100,
        40,
        false,
    );
    assert!(miss.is_none());
    let mut closed: PickerState<u32> = PickerState::new();
    let ignored: Option<PickerMsg<()>> = mouse_to_picker_msg(
        &mut closed,
        mouse(MouseEventKind::ScrollUp, 30, 16),
        area,
        dialog_opts_hooks(),
        100,
        40,
        false,
    );
    assert!(ignored.is_none());
}

#[test]
fn a_fuzzy_dropdown_shows_the_best_matches_first() {
    let keys = surfaces();
    let mut dropdown = FuzzyDropdown::new(vec!['a', 'b', 'c', 'd', 'e']);
    assert!(!dropdown.is_empty());
    assert_eq!(dropdown.items(), &['a', 'b', 'c', 'd', 'e']);
    assert_eq!(dropdown.visible_count(), 0);
    assert_eq!(dropdown.selected_index(), None);
    dropdown.update_filter("", 3, 2, &keys);
    assert_eq!(dropdown.list().items(), &[0, 1, 2]);
    assert_eq!(dropdown.list().filter_text(), "");
    dropdown.update_filter("rs", 3, 10, &keys);
    let mut scored: Vec<(usize, i64)> = keys
        .iter()
        .enumerate()
        .filter_map(|(i, k)| score(k, "rs").map(|s| (i, s)))
        .collect();
    scored.sort_by(|a, b| b.1.cmp(&a.1));
    let expected: Vec<usize> = scored.into_iter().map(|(i, _)| i).collect();
    assert!(expected.len() >= 2);
    assert_eq!(dropdown.list().items(), expected.as_slice());
    assert_eq!(dropdown.list().filter_text(), "rs");
    dropdown.update_filter("rs", 3, 1, &keys);
    assert_eq!(dropdown.list().items(), &expected[..1]);
    assert_eq!(dropdown.selected_index(), Some(0));
    dropdown.update_filter("rs", 3, 10, &keys);
    dropdown.select_next();
    assert_eq!(dropdown.selected_index(), Some(1));
    dropdown.select_previous();
    dropdown.select_previous();
    assert_eq!(dropdown.selected_index(), Some(expected.len() - 1));
    dropdown.set_selected_index(99);
    assert_eq!(dropdown.selected_index(), Some(expected.len() - 1));
    dropdown.update_items(vec!['x']);
    assert_eq!(dropdown.items(), &['x']);
    dropdown.update_filter("", 5, 5, &keys);
    assert_eq!(dropdown.list().items(), &[0]);
    let empty: FuzzyDropdown<char> = FuzzyDropdown::new(Vec::new());
    assert!(empty.is_empty());
}

struct Silent;

impl PickerHooks<u32, u8> for Silent {}

#[test]
fn own_keys_always_give_a_message_and_leave_the_state_alone() {
    let mut state = open_picker();
    state.search_input.set_text("ma".to_string());
    for hooks in [true, false] {
        for code in [KeyCode::Esc, KeyCode::Enter, KeyCode::Up, KeyCode::Down, KeyCode::Home] {
            let msg: Option<PickerMsg<u8>> = if hooks {
                key_to_picker_msg(&mut state, key(code), None, &Hooks)
            } else {
                key_to_picker_msg(&mut state, key(code), None, &Silent)
            };
            assert!(msg.is_some());
            assert_eq!(state.search_input.text(), "ma");
            assert_eq!((state.list.selected, state.list.viewport_offset), (0, 0));
            assert!(state.is_open);
        }
    }
    let typed: Option<PickerMsg<u8>> =
        key_to_picker_msg(&mut state, key(KeyCode::Char('i')), None, &Silent);
    assert!(matches!(typed, Some(PickerMsg::UpdateSearch(q)) if q == "mai"));
    let unknown: Option<PickerMsg<u8>> =
        key_to_picker_msg(&mut state, key(KeyCode::F(9)), None, &Silent);
    assert!(unknown.is_none());
}

#[test]
fn the_wheel_scrolls_wherever_the_pointer_is() {
    let mut state = open_picker();
    let area = Rect::new(0, 0, 100, 40);
    for (column, row) in [(0, 0), (30, 16), (99, 39)] {
        let up: Option<PickerMsg<()>> = mouse_to_picker_msg(
            &mut state,
            mouse(MouseEventKind::ScrollUp, column, row),
            area,
            dialog_opts_hooks(),
            100,
            40,
            false,
        );
        assert!(matches!(up, Some(PickerMsg::ScrollUp)));
        let down: Option<PickerMsg<()>> = picker_mouse_msg(
            &mut state,
            mouse(MouseEventKind::ScrollDown, column, row),
            area,
            dialog_opts_hooks(),
            100,
            40,
            false,
        );
        assert!(matches!(down, Some(PickerMsg::ScrollDown)));
    }
    assert_eq!(state.list.selected, 0);
    // The list's columns inside its border are 22..78: a pointer beside
    // them gives nothing, at any row.
    for row in 0..40u16 {
        for column in [0u16, 21, 78, 99] {
            for kind in [
                MouseEventKind::Moved,
                MouseEventKind::Down(MouseButton::Left),
                MouseEventKind::Up(MouseButton::Left),
            ] {
                let msg: Option<PickerMsg<()>> = mouse_to_picker_msg(
                    &mut state,
                    mouse(kind, column, row),
                    area,
                    dialog_opts_hooks(),
                    100,
                    40,
                    false,
                );
                assert!(msg.is_none());
            }
        }
    }
    let middle: Option<PickerMsg<()>> = mouse_to_picker_msg(
        &mut state,
        mouse(MouseEventKind::Down(MouseButton::Middle), 30, 16),
        area,
        dialog_opts_hooks(),
        100,
        40,
        false,
    );
    assert!(middle.is_none());
}
