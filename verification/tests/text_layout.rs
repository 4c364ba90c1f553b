use nodecode_terminal_kit::layout::text::{
    byte_offset_to_cursor, cursor_to_byte_offset, find_visual_row, visual_column,
    wrapped_row_ranges,
};

fn lines(parts: &[&str]) -> Vec<String> {
    parts.iter().map(|s| s.to_string()).collect()
}

#[test]
fn wrap_breaks_at_the_space_and_consumes_it() {
    assert_eq!(wrapped_row_ranges("hello world", 5), vec![(0, 5), (6, 11)]);
}

#[test]
fn wrap_excludes_the_newline_from_both_rows() {
    assert_eq!(wrapped_row_ranges("ab\ncd", 10), vec![(0, 2), (3, 5)]);
}

#[test]
fn wrap_of_empty_text_is_one_empty_row() {
    assert_eq!(wrapped_row_ranges("", 10), vec![(0, 0)]);
    assert_eq!(wrapped_row_ranges("", 0), vec![(0, 0)]);
}

#[test]
fn wrap_treats_width_zero_as_one() {
    assert_eq!(wrapped_row_ranges("abc", 0), vec![(0, 1), (1, 2), (2, 3)]);
    assert_eq!(wrapped_row_ranges("abc", 0), wrapped_row_ranges("abc", 1));
}

#[test]
fn wrap_breaks_after_the_last_break_character() {
    // "hello " stays together; "world" does not fit after it in 8 columns.
    assert_eq!(wrapped_row_ranges("hello world", 8), vec![(0, 6), (6, 11)]);
    // A path breaks after a slash.
    assert_eq!(wrapped_row_ranges("src/main.rs", 6), vec![(0, 4), (4, 10), (10, 11)]);
    // A mention breaks after the at sign.
    assert_eq!(wrapped_row_ranges("ab@cdefg", 5), vec![(0, 3), (3, 8)]);
}

#[test]
fn wrap_hard_breaks_a_long_token() {
    assert_eq!(
        wrapped_row_ranges("abcdefghij", 4),
        vec![(0, 4), (4, 8), (8, 10)]
    );
}

#[test]
fn wrap_counts_the_carried_part_of_a_row() {
    // After the break behind "aaa ", the row that starts with the carried
    // "b" still holds five columns at most.
    assert_eq!(
        wrapped_row_ranges("aaa bbbbbbb", 5),
        vec![(0, 4), (4, 9), (9, 11)]
    );
}

#[test]
fn wrap_keeps_a_wide_character_on_a_row_of_its_own() {
    // Each of these takes two columns and three bytes.
    assert_eq!(wrapped_row_ranges("漢字", 1), vec![(0, 3), (3, 6)]);
    assert_eq!(wrapped_row_ranges("漢字", 2), vec![(0, 3), (3, 6)]);
    assert_eq!(wrapped_row_ranges("漢字", 4), vec![(0, 6)]);
    assert_eq!(wrapped_row_ranges("a漢字", 3), vec![(0, 4), (4, 7)]);
}

#[test]
fn wrap_handles_consecutive_and_trailing_newlines() {
    assert_eq!(wrapped_row_ranges("\n\n", 4), vec![(0, 0), (1, 1), (2, 2)]);
    assert_eq!(wrapped_row_ranges("ab\n", 4), vec![(0, 2), (3, 3)]);
}

#[test]
fn wrap_rows_are_ordered_and_cover_the_text() {
    let text = "the quick brown fox\njumps over/the lazy @dog and 漢字 too";
    for width in 0..30u16 {
        let rows = wrapped_row_ranges(text, width);
        assert!(!rows.is_empty());
        assert_eq!(rows[0].0, 0);
        assert_eq!(rows[rows.len() - 1].1, text.len());
        for i in 0..rows.len() {
            assert!(rows[i].0 <= rows[i].1);
            assert!(text.is_char_boundary(rows[i].0));
            assert!(text.is_char_boundary(rows[i].1));
            if i + 1 < rows.len() {
                let gap = &text[rows[i].1..rows[i + 1].0];
                assert!(gap.is_empty() || gap == "\n" || gap == " ");
            }
        }
    }
}

#[test]
fn visual_column_sums_cell_widths() {
    assert_eq!(visual_column(""), 0);
    assert_eq!(visual_column("abc"), 3);
    assert_eq!(visual_column("漢字"), 4);
    // A control character and a zero-width joiner count one cell each.
    assert_eq!(visual_column("a\u{7}b"), 3);
    assert_eq!(visual_column("a\u{200d}b"), 3);
}

#[test]
fn find_visual_row_picks_the_later_row_at_a_boundary() {
    let rows = vec![(0, 4), (4, 8), (8, 10)];
    assert_eq!(find_visual_row(&rows, 0), 0);
    assert_eq!(find_visual_row(&rows, 3), 0);
    assert_eq!(find_visual_row(&rows, 4), 1);
    assert_eq!(find_visual_row(&rows, 8), 2);
    assert_eq!(find_visual_row(&rows, 10), 2);
    assert_eq!(find_visual_row(&rows, 99), 2);
}

#[test]
fn find_visual_row_at_a_consumed_separator_is_the_row_that_ends_there() {
    let rows = wrapped_row_ranges("ab\ncd", 10);
    assert_eq!(find_visual_row(&rows, 2), 0);
    assert_eq!(find_visual_row(&rows, 3), 1);
    assert_eq!(find_visual_row(&rows, 5), 1);
}

#[test]
fn find_visual_row_without_rows_is_zero() {
    assert_eq!(find_visual_row(&[], 7), 0);
    assert_eq!(find_visual_row(&[(3, 5)], 1), 0);
}

#[test]
fn cursor_to_byte_offset_counts_lines_and_separators() {
    let buf = lines(&["ab", "cde", ""]);
    assert_eq!(cursor_to_byte_offset(&buf, (0, 0)), 0);
    assert_eq!(cursor_to_byte_offset(&buf, (0, 2)), 2);
    assert_eq!(cursor_to_byte_offset(&buf, (1, 0)), 3);
    assert_eq!(cursor_to_byte_offset(&buf, (1, 3)), 6);
    assert_eq!(cursor_to_byte_offset(&buf, (2, 0)), 7);
    // A column past the end of the line is the end of the line.
    assert_eq!(cursor_to_byte_offset(&buf, (1, 9)), 6);
    // A line past the last is the end of the buffer.
    assert_eq!(cursor_to_byte_offset(&buf, (5, 0)), 7);
    assert_eq!(cursor_to_byte_offset(&[], (0, 0)), 0);
}

#[test]
fn cursor_to_byte_offset_walks_code_points_not_bytes() {
    let buf = lines(&["é漢a", "\u{200d}x"]);
    assert_eq!(cursor_to_byte_offset(&buf, (0, 1)), 2);
    assert_eq!(cursor_to_byte_offset(&buf, (0, 2)), 5);
    assert_eq!(cursor_to_byte_offset(&buf, (0, 3)), 6);
    assert_eq!(cursor_to_byte_offset(&buf, (1, 1)), 10);
    assert_eq!(cursor_to_byte_offset(&buf, (1, 2)), 11);
}

#[test]
fn byte_offset_to_cursor_finds_line_and_column() {
    let buf = lines(&["ab", "cde", ""]);
    assert_eq!(byte_offset_to_cursor(&buf, 0), (0, 0));
    assert_eq!(byte_offset_to_cursor(&buf, 2), (0, 2));
    assert_eq!(byte_offset_to_cursor(&buf, 3), (1, 0));
    assert_eq!(byte_offset_to_cursor(&buf, 6), (1, 3));
    assert_eq!(byte_offset_to_cursor(&buf, 7), (2, 0));
    assert_eq!(byte_offset_to_cursor(&buf, 100), (2, 0));
    assert_eq!(byte_offset_to_cursor(&[], 3), (0, 0));
}

#[test]
fn byte_offset_inside_a_character_gives_that_character() {
    let buf = lines(&["é漢a"]);
    assert_eq!(byte_offset_to_cursor(&buf, 1), (0, 0));
    assert_eq!(byte_offset_to_cursor(&buf, 2), (0, 1));
    assert_eq!(byte_offset_to_cursor(&buf, 4), (0, 1));
    assert_eq!(byte_offset_to_cursor(&buf, 5), (0, 2));
}

#[test]
fn cursor_round_trip_over_a_whole_buffer() {
    let buf = lines(&["héllo", "", "漢字 wörld", "a\u{200d}b"]);
    for (row, line) in buf.iter().enumerate() {
        for col in 0..=line.chars().count() {
            let offset = cursor_to_byte_offset(&buf, (row, col));
            assert_eq!(byte_offset_to_cursor(&buf, offset), (row, col));
        }
    }
}

#[test]
fn the_flattened_buffer_is_its_lines_and_their_separators() {
    for parts in [vec!["ab", "cd"], vec![""], vec!["héllo", "", "漢字"], vec!["x"]] {
        let buffer = lines(&parts);
        let bytes: usize = parts.iter().map(|p| p.len()).sum::<usize>() + parts.len() - 1;
        assert_eq!(cursor_to_byte_offset(&buffer, (parts.len(), 0)), bytes);
        let last = parts.len() - 1;
        assert_eq!(cursor_to_byte_offset(&buffer, (last, usize::MAX)), bytes);
    }
    assert_eq!(cursor_to_byte_offset(&[], (0, 0)), 0);
}

#[test]
fn wrapped_rows_fit_the_width() {
    let texts = ["hello world", "a/b/c/d/e/f", "漢字漢字 漢字", "x\n\nyy zz", "averyveryverylongtoken", ""];
    for text in texts {
        for width in 0..8u16 {
            for (start, end) in wrapped_row_ranges(text, width) {
                let row = &text[start..end];
                let fits = visual_column(row) <= width.max(1) as usize;
                assert!(fits || row.chars().count() == 1, "{text:?} at width {width}: {row:?}");
            }
        }
    }
}
