use nodecode_terminal_kit::components::picker::vertically_centered_text;
use nodecode_terminal_kit::layout::branding::{
    logo_centered_areas, logo_lines, logo_lines_padded, pad_right, version_line,
    version_line_padded, LOGO_COMPACT, LOGO_COMPACT_HEIGHT, LOGO_STACKED, LOGO_STACKED_HEIGHT,
};
use nodecode_terminal_kit::layout::section_stack::{
    block_stack_areas, text_line, truncate_to_width, wrap_section, StackSlot,
};
use nodecode_terminal_kit::layout::visual::{
    cursor_visual_position, visual_line_end, visual_vertical_target,
};
use nodecode_terminal_kit::primitives::geom::Rect;
use nodecode_terminal_kit::primitives::path::{
    ends_path, find_from, find_next_abs_segment, format_path, path_pieces, path_style,
    PathDisplayConfig, PathPiece,
};
use nodecode_terminal_kit::primitives::strings::{
    join_lines, push_decimal, push_repeated, split_lines, string_of, text_width,
    truncate_with_ellipsis,
};
use nodecode_terminal_kit::primitives::text::wrapped_row_count;
use nodecode_terminal_kit::theme::{CellStyle, Color, Theme};

fn owned(parts: &[&str]) -> Vec<String> {
    parts.iter().map(|p| p.to_string()).collect()
}

fn shown(pieces: &[PathPiece]) -> Vec<(bool, String)> {
    pieces
        .iter()
        .map(|p| match p {
            PathPiece::Text(s) => (false, s.clone()),
            PathPiece::Path(s) => (true, s.clone()),
        })
        .collect()
}

#[test]
fn lines_join_and_split_back() {
    assert_eq!(join_lines(&owned(&["ab", "cd"])), "ab\ncd");
    assert_eq!(join_lines(&owned(&["ab"])), "ab");
    assert_eq!(join_lines(&[]), "");
    assert_eq!(split_lines("ab\ncd\n"), owned(&["ab", "cd", ""]));
    assert_eq!(split_lines(""), owned(&[""]));
    assert_eq!(split_lines("\n\n"), owned(&["", "", ""]));
    let text = "one\n\ntwo\nthree\n";
    assert_eq!(join_lines(&split_lines(text)), text);
}

#[test]
fn strings_are_built_from_characters() {
    let chars: Vec<char> = "héllo".chars().collect();
    assert_eq!(string_of(&chars, 1, 4), "éll");
    assert_eq!(string_of(&chars, 2, 2), "");
    let mut s = String::from("a");
    push_repeated(&mut s, '-', 3);
    assert_eq!(s, "a---");
    push_decimal(&mut s, 0);
    push_decimal(&mut s, 1907);
    assert_eq!(s, "a---01907");
    let mut big = String::new();
    push_decimal(&mut big, usize::MAX);
    assert_eq!(big, usize::MAX.to_string());
    assert_eq!(text_width("héllo"), 5);
    assert_eq!(text_width(""), 0);
}

#[test]
fn ellipsis_cuts_by_characters() {
    assert_eq!(truncate_with_ellipsis("hello world", 8), "hello...");
    assert_eq!(truncate_with_ellipsis("hello world", 11), "hello world");
    assert_eq!(truncate_with_ellipsis("hello world", 4), "h...");
    assert_eq!(truncate_with_ellipsis("hello world", 3), "...");
    assert_eq!(truncate_with_ellipsis("hello world", 2), "..");
    assert_eq!(truncate_with_ellipsis("hello world", 0), "");
    assert_eq!(truncate_with_ellipsis("héllo wörld", 8), "héllo...");
}

#[test]
fn width_cut_counts_columns() {
    assert_eq!(truncate_to_width("hello", 0), "");
    assert_eq!(truncate_to_width("hello", 5), "hello");
    assert_eq!(truncate_to_width("hello world", 8), "hello \u{2026}");
    assert_eq!(truncate_to_width("漢字漢字", 5), "漢\u{2026}");
    assert_eq!(truncate_to_width("漢字漢字", 8), "漢字漢字");
    assert_eq!(truncate_to_width("ab", 1), "\u{2026}");
}

#[test]
fn row_count_folds_each_line() {
    assert_eq!(wrapped_row_count("", 10), 0);
    assert_eq!(wrapped_row_count("abc", 10), 1);
    assert_eq!(wrapped_row_count("abcdefghijk", 5), 3);
    assert_eq!(wrapped_row_count("abcdefghij", 5), 2);
    assert_eq!(wrapped_row_count("a\n", 10), 2);
    assert_eq!(wrapped_row_count("\n", 10), 2);
    assert_eq!(wrapped_row_count("ab\n\ncd", 10), 3);
    assert_eq!(wrapped_row_count("abcde\r\nx", 5), 2);
    assert_eq!(wrapped_row_count("漢字", 1), 4);
    assert_eq!(wrapped_row_count("漢字", 0), 4);
    assert_eq!(wrapped_row_count("漢字", 4), 1);
}

#[test]
fn paths_under_the_base_are_found() {
    let pieces = path_pieces("see /home/u/a.rs, and @/home/u/b.rs!", "/home/u");
    assert_eq!(
        shown(&pieces),
        vec![
            (false, "see ".to_string()),
            (true, "/home/u/a.rs".to_string()),
            (false, ", and ".to_string()),
            (true, "/home/u/b.rs!".to_string()),
        ]
    );
    assert_eq!(shown(&path_pieces("no paths", "/x")), vec![(false, "no paths".to_string())]);
    assert!(path_pieces("", "/x").is_empty());
    assert_eq!(
        shown(&path_pieces("@/b/x y", "/b")),
        vec![(true, "/b/x".to_string()), (false, " y".to_string())]
    );
    assert_eq!(
        shown(&path_pieces("(/b/x)", "/b")),
        vec![(false, "(".to_string()), (true, "/b/x".to_string()), (false, ")".to_string())]
    );
}

#[test]
fn a_base_that_cannot_be_searched_for_finds_nothing() {
    assert_eq!(shown(&path_pieces("a b", "")), vec![(false, "a b".to_string())]);
    assert_eq!(shown(&path_pieces("a b", " b")), vec![(false, "a b".to_string())]);
    assert!(path_pieces("", "").is_empty());
}

#[test]
fn segments_and_occurrences() {
    let text: Vec<char> = "x @/b/c d /b".chars().collect();
    let base: Vec<char> = "/b".chars().collect();
    assert_eq!(find_from(&text, &base, 0), 3);
    assert_eq!(find_from(&text, &base, 4), 10);
    assert_eq!(find_from(&text, &base, 11), text.len());
    assert_eq!(find_next_abs_segment(&text, &base, 0), Some((2, 3, 7)));
    assert_eq!(find_next_abs_segment(&text, &base, 7), Some((10, 10, 12)));
    assert_eq!(find_next_abs_segment(&text, &base, 12), None);
    assert!(ends_path(' ') && ends_path('"') && ends_path('}') && ends_path(';'));
    assert!(!ends_path('/') && !ends_path('a') && !ends_path('('));
}

#[test]
fn paths_are_shown_with_prefix_and_style() {
    let config = PathDisplayConfig::default();
    assert_eq!(config.prefix, "@");
    assert!(config.show_relative && !config.bold);
    assert!(config.color.is_none() && config.base_dir.is_none());
    assert_eq!(format_path(&config, "src/a.rs"), "@src/a.rs");
    let base = CellStyle::plain().fg(Color::Indexed(3));
    assert_eq!(path_style(&config, base), base);
    let loud = PathDisplayConfig { bold: true, color: Some(Color::Indexed(9)), ..config };
    assert_eq!(path_style(&loud, base), base.bold().fg(Color::Indexed(9)));
}

#[test]
fn sections_are_stacked_from_the_top() {
    let inner = Rect::new(0, 0, 10, 10);
    assert_eq!(
        block_stack_areas(inner, &vec![2, 0, 3], 1, 0),
        vec![
            StackSlot { index: 0, area: Rect::new(0, 0, 10, 3) },
            StackSlot { index: 2, area: Rect::new(0, 3, 10, 4) },
        ]
    );
    let low = Rect::new(1, 2, 10, 4);
    assert_eq!(
        block_stack_areas(low, &vec![3, 3, 3], 0, 0),
        vec![
            StackSlot { index: 0, area: Rect::new(1, 2, 10, 3) },
            StackSlot { index: 1, area: Rect::new(1, 5, 10, 1) },
        ]
    );
    assert!(block_stack_areas(Rect::new(0, 0, 0, 5), &vec![1], 0, 0).is_empty());
    assert!(block_stack_areas(Rect::new(0, 0, 5, 0), &vec![1], 0, 0).is_empty());
    assert!(block_stack_areas(inner, &vec![], 1, 1).is_empty());
}

#[test]
fn a_section_gets_its_title() {
    let theme = Theme::default();
    assert!(wrap_section("Title", &theme, Vec::new()).is_none());
    let body = vec![text_line("first".to_string(), CellStyle::plain())];
    let section = wrap_section("Title", &theme, body).unwrap();
    assert_eq!(section.len(), 3);
    assert_eq!(section[0].spans.len(), 1);
    assert_eq!(section[0].spans[0].text, "Title");
    assert_eq!(section[0].spans[0].style, theme.primary_style().bold());
    assert!(section[1].spans.is_empty());
    assert_eq!(section[2].spans[0].text, "first");
    assert_eq!(section[2].spans[0].style, CellStyle::plain());
}

#[test]
fn logo_and_version_lines() {
    let theme = Theme::default();
    assert_eq!(LOGO_COMPACT.len(), LOGO_COMPACT_HEIGHT as usize);
    assert_eq!(LOGO_STACKED.len(), LOGO_STACKED_HEIGHT as usize);
    assert_eq!(pad_right("ab", 3), "ab ");
    assert_eq!(pad_right("ab", 2), "ab");
    assert_eq!(pad_right("漢", 2), "漢");
    assert_eq!(pad_right("漢", 3), "漢 ");
    let lines = logo_lines(&theme, &LOGO_COMPACT);
    assert_eq!(lines.len(), 3);
    for (line, row) in lines.iter().zip(LOGO_COMPACT.iter()) {
        assert_eq!(line.spans.len(), 1);
        assert_eq!(line.spans[0].text, *row);
        assert_eq!(line.spans[0].style, theme.primary_style().bold());
    }
    let padded = logo_lines_padded(&theme, &LOGO_STACKED, 19);
    assert_eq!(padded.len(), 6);
    assert_eq!(padded[0].spans[0].text, format!("{} ", LOGO_STACKED[0]));
    let tight = logo_lines_padded(&theme, &LOGO_STACKED, 18);
    assert_eq!(tight[0].spans[0].text, LOGO_STACKED[0]);
    let version = version_line(&theme, "v1.2");
    assert_eq!(version.spans[0].text, "v1.2");
    assert_eq!(version.spans[0].style, theme.primary_style().dim());
    assert_eq!(version_line_padded(&theme, "v1.2", 5).spans[0].text, "v1.2 ");
    assert_eq!(version_line_padded(&theme, "v1.2", 4).spans[0].text, "v1.2");
}

#[test]
fn the_centred_logo_gets_its_rows() {
    assert_eq!(
        logo_centered_areas(Rect::new(2, 1, 40, 10)),
        Some((Rect::new(2, 1, 40, 3), Rect::new(2, 4, 40, 1)))
    );
    assert_eq!(logo_centered_areas(Rect::new(0, 0, 0, 10)), None);
    assert_eq!(logo_centered_areas(Rect::new(0, 0, 10, 0)), None);
}

#[test]
fn a_message_is_centred_by_empty_lines() {
    assert_eq!(vertically_centered_text("hi", 5), owned(&["", "", "hi"]));
    assert_eq!(vertically_centered_text("hi", 1), owned(&["hi"]));
    assert_eq!(vertically_centered_text("hi", 0), owned(&["hi"]));
}

#[test]
fn the_cursor_is_shown_in_its_row() {
    assert_eq!(cursor_visual_position("hello world", 0, 5), (0, 0));
    assert_eq!(cursor_visual_position("hello world", 8, 5), (1, 2));
    assert_eq!(cursor_visual_position("hello world", 5, 5), (0, 5));
    assert_eq!(cursor_visual_position("hello world", 11, 5), (1, 5));
    assert_eq!(cursor_visual_position("hello world", 99, 5), (1, 5));
    assert_eq!(cursor_visual_position("ab\ncd", 3, 10), (1, 0));
    assert_eq!(cursor_visual_position("漢字", 3, 10), (0, 2));
    assert_eq!(cursor_visual_position("", 0, 10), (0, 0));
}

#[test]
fn the_end_of_the_visual_row() {
    assert_eq!(visual_line_end("hello world", 2, 5), 5);
    assert_eq!(visual_line_end("hello world", 8, 5), 11);
    assert_eq!(visual_line_end("hello world", 2, 0), 11);
    assert_eq!(visual_line_end("", 0, 5), 0);
    assert_eq!(visual_line_end("ab\ncd", 1, 10), 2);
}

#[test]
fn the_cursor_moves_between_visual_rows() {
    assert_eq!(visual_vertical_target("hello world", 8, true, 5), Some(2));
    assert_eq!(visual_vertical_target("hello world", 2, false, 5), Some(8));
    assert_eq!(visual_vertical_target("hello world", 8, false, 5), None);
    assert_eq!(visual_vertical_target("hello world", 2, true, 5), None);
    assert_eq!(visual_vertical_target("hello", 2, false, 10), None);
    assert_eq!(visual_vertical_target("", 0, false, 10), None);
    assert_eq!(visual_vertical_target("hello world", 2, false, 0), None);
    // The target row is shorter than the cursor's column: its end.
    assert_eq!(visual_vertical_target("hello\nab", 4, false, 10), Some(8));
}
