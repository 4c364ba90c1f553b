use nodecode_terminal_kit::components::dialog_shell::{
    apply_inline_overrides, apply_padding, block_area, calculate_dialog_area_clamped,
    center_position, compute_centered, compute_centered_bordered,
    compute_centered_bordered_contained, compute_fixed, layout_from_rows,
    layout_with_footer_below, split_columns, split_rows, DialogBounds, DialogLayout,
    InlineDialogGuard, Padding, RowConstraint,
};
use nodecode_terminal_kit::components::list::ListState;
use nodecode_terminal_kit::components::overlay_dialog::{
    compute_layout, default_padding, overlay_from_rows, total_height, OverlayDialogOptions,
};
use nodecode_terminal_kit::components::picker_dialog::{counted_tab_label, default_tab_style};
use nodecode_terminal_kit::components::tabbed_dialog::{
    apply_tab_navigation, default_tabbed_dialog_opts, handle_list_navigation, hint_line,
    is_confirm_key, list_with_hints_areas, next_tab, pad_tab_labels, prev_tab,
    resolved_hint_rows, route_list_key, route_plain_key, tab_bar_line_from_order,
    tab_bar_padding, tab_bar_width, tab_move, tabbed_header_rows, TabMove, TabbedKey,
    LIST_VIEWPORT_HEIGHT_ESTIMATE,
};
use nodecode_terminal_kit::components::tabbed_prompt_dialog::{
    default_prompt_dialog_opts, footer_text_area, header_rows, prompt_dialog_opts,
    prompt_header_rows, search_band, title_hints, title_row_areas,
};
use nodecode_terminal_kit::primitives::geom::Rect;
use nodecode_terminal_kit::runtime::keys::{KeyCode, KeyEvent, KeyModifiers};
use nodecode_terminal_kit::theme::{CellStyle, Theme, ThemeElement};

fn key(code: KeyCode) -> KeyEvent {
    KeyEvent::new(code, KeyModifiers::none())
}

fn bounds() -> DialogBounds {
    DialogBounds {
        max_width: 60,
        max_height: 20,
        header_rows: 3,
        footer_rows: 1,
        padding: Padding::new(1, 1, 1, 1),
    }
}

#[test]
fn a_dialog_is_centred_and_clamped() {
    assert_eq!(center_position(10, 4), 3);
    assert_eq!(center_position(4, 10), 0);
    assert_eq!(center_position(11, 4), 3);
    let parent = Rect::new(5, 5, 10, 10);
    assert_eq!(
        calculate_dialog_area_clamped(parent, 4, 20, 6, 8, 0, 8),
        Rect::new(7, 6, 6, 8)
    );
    assert_eq!(
        calculate_dialog_area_clamped(parent, 7, 3, 0, 8, 0, 8),
        Rect::new(6, 8, 7, 3)
    );
    // A dialog larger than its parent starts at the parent's corner.
    assert_eq!(
        calculate_dialog_area_clamped(parent, 30, 30, 0, 40, 0, 40),
        Rect::new(5, 5, 30, 30)
    );
}

#[test]
fn inline_dialogs_take_the_full_width() {
    let parent = Rect::new(0, 0, 100, 40);
    assert_eq!(apply_inline_overrides(bounds(), 50, parent, false), (bounds(), 50));
    assert_eq!(
        apply_inline_overrides(bounds(), 50, parent, true),
        (DialogBounds { max_width: 100, ..bounds() }, 100)
    );
    let mut flag = false;
    let guard = InlineDialogGuard::enable(&mut flag);
    assert!(flag);
    let inner = InlineDialogGuard::enable(&mut flag);
    assert!(flag);
    inner.restore(&mut flag);
    assert!(flag);
    guard.restore(&mut flag);
    assert!(!flag);
}

#[test]
fn padding_and_borders_shrink_an_area() {
    let area = Rect::new(0, 0, 10, 10);
    assert_eq!(apply_padding(area, Padding::new(1, 2, 3, 4)), Rect::new(1, 3, 7, 3));
    assert_eq!(apply_padding(Rect::new(0, 0, 2, 2), Padding::new(2, 2, 2, 2)), Rect::new(2, 2, 0, 0));
    assert_eq!(block_area(area, false, Padding::new(0, 0, 0, 0)), area);
    assert_eq!(block_area(area, true, Padding::new(0, 0, 0, 0)), Rect::new(1, 1, 8, 8));
    assert_eq!(block_area(area, true, Padding::new(1, 0, 0, 0)), Rect::new(2, 1, 7, 8));
    assert_eq!(block_area(area, false, Padding::new(1, 2, 3, 4)), Rect::new(1, 3, 7, 3));
    assert_eq!(block_area(Rect::new(0, 0, 1, 1), true, Padding::new(0, 0, 0, 0)), Rect::new(1, 1, 0, 0));
    assert_eq!(block_area(Rect::new(4, 4, 0, 0), true, Padding::new(0, 0, 0, 0)), Rect::new(4, 4, 0, 0));
}

#[test]
fn an_area_is_split_into_bands() {
    let area = Rect::new(0, 0, 20, 10);
    assert_eq!(
        split_rows(area, &vec![RowConstraint::Length(2), RowConstraint::Min(0), RowConstraint::Length(1)]),
        vec![Rect::new(0, 0, 20, 2), Rect::new(0, 2, 20, 7), Rect::new(0, 9, 20, 1)]
    );
    assert_eq!(
        split_columns(Rect::new(0, 0, 10, 2), &vec![RowConstraint::Min(0), RowConstraint::Length(3)]),
        vec![Rect::new(0, 0, 7, 2), Rect::new(7, 0, 3, 2)]
    );
    assert!(split_rows(area, &Vec::new()).is_empty());
}

#[test]
fn a_fixed_area_gets_header_body_and_footer() {
    let area = Rect::new(0, 0, 20, 10);
    assert_eq!(
        compute_fixed(area, 2, 1),
        DialogLayout {
            area,
            header: Rect::new(0, 0, 20, 2),
            body: Rect::new(0, 2, 20, 7),
            footer: Rect::new(0, 9, 20, 1),
        }
    );
    let rows = vec![Rect::new(0, 0, 1, 1), Rect::new(0, 1, 1, 1), Rect::new(0, 2, 1, 1)];
    let layout = layout_from_rows(area, &rows);
    assert_eq!((layout.header, layout.body, layout.footer), (rows[0], rows[1], rows[2]));
}

#[test]
fn a_centred_dialog_is_laid_out_inside_its_padding() {
    let parent = Rect::new(0, 0, 100, 40);
    assert_eq!(
        compute_centered(parent, bounds(), 100, 40, false),
        DialogLayout {
            area: Rect::new(20, 10, 60, 20),
            header: Rect::new(21, 11, 58, 3),
            body: Rect::new(21, 14, 58, 14),
            footer: Rect::new(21, 28, 58, 1),
        }
    );
    let inline = compute_centered(parent, bounds(), 30, 40, true);
    assert_eq!(inline.area, Rect::new(0, 10, 100, 20));
    assert_eq!(inline.header, Rect::new(1, 11, 98, 3));
}

#[test]
fn a_bordered_dialog_keeps_its_footer_inside_or_below() {
    let parent = Rect::new(0, 0, 100, 40);
    assert_eq!(
        compute_centered_bordered_contained(parent, bounds(), 100, 40, false),
        DialogLayout {
            area: Rect::new(20, 10, 60, 20),
            header: Rect::new(22, 12, 56, 3),
            body: Rect::new(22, 15, 56, 12),
            footer: Rect::new(22, 27, 56, 1),
        }
    );
    assert_eq!(
        compute_centered_bordered(parent, bounds(), 100, 40, false),
        DialogLayout {
            area: Rect::new(20, 10, 60, 20),
            header: Rect::new(22, 12, 56, 3),
            body: Rect::new(22, 15, 56, 13),
            footer: Rect::new(22, 30, 56, 1),
        }
    );
    let rows = vec![Rect::new(1, 1, 5, 1), Rect::new(1, 2, 5, 3)];
    let below = layout_with_footer_below(Rect::new(0, 0, 7, 6), Rect::new(1, 1, 5, 4), &rows, 2);
    assert_eq!(below.footer, Rect::new(1, 6, 5, 2));
}

#[test]
fn an_overlay_has_four_bands() {
    let opts = OverlayDialogOptions::overlay(2, 1);
    assert_eq!(opts.padding, default_padding());
    assert_eq!(opts.footer_gap, 1);
    assert_eq!(opts.chrome_rows(), 6);
    assert_eq!(total_height(10, opts), 16);
    assert_eq!(total_height(u16::MAX, opts), u16::MAX);
    let area = Rect::new(0, 0, 30, 16);
    let layout = compute_layout(area, opts);
    assert_eq!(layout.area, area);
    assert_eq!(layout.header, Rect::new(1, 1, 28, 2));
    assert_eq!(layout.body, Rect::new(1, 3, 28, 10));
    assert_eq!(layout.footer_gap, Rect::new(1, 13, 28, 1));
    assert_eq!(layout.footer, Rect::new(1, 14, 28, 1));
    let rows = vec![area, area, area, Rect::new(9, 9, 9, 9)];
    assert_eq!(overlay_from_rows(area, &rows).footer, Rect::new(9, 9, 9, 9));
}

#[test]
fn tabs_go_round() {
    let order = ['a', 'b', 'c'];
    assert_eq!(next_tab(&order, 'a'), 'b');
    assert_eq!(next_tab(&order, 'c'), 'a');
    assert_eq!(prev_tab(&order, 'a'), 'c');
    assert_eq!(prev_tab(&order, 'b'), 'a');
    // A tab that is not in the order counts as the first.
    assert_eq!(next_tab(&order, 'z'), 'b');
    assert_eq!(prev_tab(&order, 'z'), 'c');
    assert_eq!(next_tab(&['x'], 'x'), 'x');
}

#[test]
fn tab_keys_move_between_tabs() {
    let order = [1, 2, 3];
    assert_eq!(tab_move(&key(KeyCode::Tab)), TabMove::Forward);
    assert_eq!(tab_move(&key(KeyCode::BackTab)), TabMove::Back);
    assert_eq!(tab_move(&KeyEvent::new(KeyCode::Tab, KeyModifiers::shift())), TabMove::Back);
    assert_eq!(tab_move(&key(KeyCode::Char('\t'))), TabMove::Forward);
    assert_eq!(tab_move(&KeyEvent::new(KeyCode::Char('\t'), KeyModifiers::shift())), TabMove::Back);
    assert_eq!(tab_move(&key(KeyCode::Char('x'))), TabMove::Stay);
    assert_eq!(tab_move(&key(KeyCode::Enter)), TabMove::Stay);
    let mut current = 3;
    assert!(apply_tab_navigation(&order, &mut current, &key(KeyCode::Tab)));
    assert_eq!(current, 1);
    assert!(apply_tab_navigation(&order, &mut current, &key(KeyCode::BackTab)));
    assert_eq!(current, 3);
    assert!(!apply_tab_navigation(&order, &mut current, &key(KeyCode::Down)));
    assert_eq!(current, 3);
}

#[test]
fn arrow_keys_move_in_the_list_of_a_tab() {
    let mut list = ListState::new();
    assert_eq!(LIST_VIEWPORT_HEIGHT_ESTIMATE, 10);
    assert!(handle_list_navigation(&key(KeyCode::Up), &mut list, 30, 10));
    assert_eq!((list.selected, list.viewport_offset), (29, 20));
    assert!(handle_list_navigation(&key(KeyCode::Down), &mut list, 30, 10));
    assert_eq!((list.selected, list.viewport_offset), (0, 0));
    assert!(!handle_list_navigation(&key(KeyCode::Enter), &mut list, 30, 10));
    assert!(is_confirm_key(&key(KeyCode::Enter)));
    assert!(is_confirm_key(&key(KeyCode::Char(' '))));
    assert!(!is_confirm_key(&key(KeyCode::Char('x'))));
}

#[test]
fn keys_are_routed_to_tabs_then_list_then_handlers() {
    let order = ['a', 'b'];
    let mut active = 'a';
    let mut list = ListState::new();
    assert_eq!(route_list_key(key(KeyCode::Tab), &order, &mut active, &mut list, 5), TabbedKey::Consumed);
    assert_eq!(active, 'b');
    assert_eq!(route_list_key(key(KeyCode::Down), &order, &mut active, &mut list, 5), TabbedKey::Consumed);
    assert_eq!(list.selected, 1);
    assert_eq!(
        route_list_key(key(KeyCode::Enter), &order, &mut active, &mut list, 5),
        TabbedKey::Offer { selected: Some(1), confirms: true }
    );
    assert_eq!(
        route_list_key(key(KeyCode::Char('x')), &order, &mut active, &mut list, 0),
        TabbedKey::Offer { selected: None, confirms: false }
    );
    list.selected = 9;
    assert_eq!(
        route_list_key(key(KeyCode::Char('x')), &order, &mut active, &mut list, 5),
        TabbedKey::Offer { selected: Some(4), confirms: false }
    );
    assert_eq!(route_plain_key(key(KeyCode::BackTab), &order, &mut active), TabbedKey::Consumed);
    assert_eq!(active, 'a');
    assert_eq!(
        route_plain_key(key(KeyCode::Char(' ')), &order, &mut active),
        TabbedKey::Offer { selected: None, confirms: true }
    );
}

#[test]
fn the_tab_bar_is_filled_to_its_width() {
    let labels = vec![" One ".to_string(), " 漢字 ".to_string()];
    assert_eq!(tab_bar_width(&labels), 12);
    assert_eq!(tab_bar_padding(&labels, 20), 8);
    assert_eq!(tab_bar_padding(&labels, 12), 0);
    assert_eq!(tab_bar_padding(&labels, 5), 0);
    let mut padded = labels.clone();
    pad_tab_labels(&mut padded, 15);
    assert_eq!(padded, vec![" One ".to_string(), " 漢字    ".to_string()]);
    let mut none: Vec<String> = Vec::new();
    pad_tab_labels(&mut none, 15);
    assert!(none.is_empty());
    let bold = CellStyle::plain().bold();
    let line = tab_bar_line_from_order(labels, &vec![bold, CellStyle::plain()], 15);
    let runs: Vec<(&str, CellStyle)> =
        line.spans.iter().map(|s| (s.text.as_str(), s.style)).collect();
    assert_eq!(
        runs,
        vec![(" One ", bold), (" ", CellStyle::plain()), (" 漢字    ", CellStyle::plain())]
    );
    assert!(tab_bar_line_from_order(Vec::new(), &Vec::new(), 15).spans.is_empty());
}

#[test]
fn tabbed_dialogs_have_their_bounds_and_rows() {
    let theme = Theme::default();
    assert_eq!(
        default_tabbed_dialog_opts(),
        DialogBounds { footer_rows: 2, ..bounds() }
    );
    assert_eq!(
        tabbed_header_rows(Rect::new(2, 3, 20, 3)),
        [Rect::new(2, 3, 20, 1), Rect::new(2, 4, 20, 1), Rect::new(2, 5, 20, 1)]
    );
    assert_eq!(resolved_hint_rows(Some(4), 2), 4);
    assert_eq!(resolved_hint_rows(None, 2), 2);
    assert_eq!(resolved_hint_rows(None, 70_000), u16::MAX);
    let area = Rect::new(0, 0, 20, 10);
    assert_eq!(list_with_hints_areas(area, 0), (area, None));
    assert_eq!(
        list_with_hints_areas(area, 2),
        (Rect::new(0, 0, 20, 8), Some(Rect::new(0, 8, 20, 2)))
    );
    let line = hint_line(&theme, "Path: ", "/tmp".to_string(), ThemeElement::Info);
    assert_eq!(line.spans.len(), 2);
    assert_eq!(line.spans[0].text, "Path: ");
    assert_eq!(line.spans[0].style, theme.style(ThemeElement::Tertiary));
    assert_eq!(line.spans[1].text, "/tmp");
    assert_eq!(line.spans[1].style, theme.style(ThemeElement::Info));
}

#[test]
fn prompt_dialogs_count_their_header_rows() {
    assert_eq!(header_rows(false, false), 1);
    assert_eq!(header_rows(false, true), 2);
    assert_eq!(header_rows(true, false), 4);
    assert_eq!(header_rows(true, true), 5);
    assert_eq!(search_band(true), 2);
    assert_eq!(search_band(false), 1);
    let expected = DialogBounds { header_rows: 5, footer_rows: 2, ..bounds() };
    assert_eq!(default_prompt_dialog_opts(), expected);
    assert_eq!(prompt_dialog_opts(true, true), expected);
    assert_eq!(prompt_dialog_opts(false, true), DialogBounds { header_rows: 2, ..expected });
    let header = Rect::new(1, 1, 30, 5);
    assert_eq!(
        prompt_header_rows(header, true, true),
        vec![Rect::new(1, 1, 30, 1), Rect::new(1, 2, 30, 1), Rect::new(1, 3, 30, 3)]
    );
    assert_eq!(prompt_header_rows(Rect::new(1, 1, 30, 1), false, false), vec![Rect::new(1, 1, 30, 1)]);
    assert_eq!(prompt_header_rows(Rect::new(1, 1, 30, 4), true, false).len(), 2);
}

#[test]
fn title_hints_are_cut_to_the_room_beside_the_title() {
    assert_eq!(title_hints("Title", "  ctrl+r refresh ", 30), "ctrl+r refresh");
    assert_eq!(title_hints("Title", "ctrl+r refresh", 16), "ctrl+r ...");
    assert_eq!(title_hints("Title", "ctrl+r refresh", 8), "..");
    assert_eq!(title_hints("Title", "ctrl+r refresh", 6), "");
    assert_eq!(title_hints("Title", "   ", 30), "");
    let row = Rect::new(2, 1, 30, 1);
    assert_eq!(title_row_areas(row, 0), (row, None));
    assert_eq!(
        title_row_areas(row, 10),
        (Rect::new(2, 1, 20, 1), Some(Rect::new(22, 1, 10, 1)))
    );
}

#[test]
fn the_footer_text_goes_to_the_last_row() {
    assert_eq!(footer_text_area(Rect::new(3, 10, 20, 2)), Rect::new(3, 11, 20, 1));
    assert_eq!(footer_text_area(Rect::new(3, 10, 20, 1)), Rect::new(3, 10, 20, 1));
    assert_eq!(footer_text_area(Rect::new(3, 10, 20, 0)), Rect::new(3, 10, 20, 0));
}

#[test]
fn tab_labels_count_their_items() {
    let theme = Theme::default();
    assert_eq!(counted_tab_label(12, "Files", "No files"), " Files (12) ");
    assert_eq!(counted_tab_label(0, "Files", "No files"), " No files ");
    assert_eq!(counted_tab_label(1, "", ""), "  (1) ");
    assert_eq!(default_tab_style(&theme, true), theme.style(ThemeElement::Selection).bold());
    assert_eq!(default_tab_style(&theme, false), theme.style(ThemeElement::Tertiary));
}
