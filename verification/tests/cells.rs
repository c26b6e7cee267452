use nebula_display::cells::{nebula_pad_to_cells, wrap_display_cols};
use nebula_display::text::{
    cell_width_of, char_width_of, decimal, ink_cols, repeat_char, slot_cols, text_cols,
};

#[test]
fn popup_pad_counts_display_cells_and_drops_straddling_wide_chars() {
    // Pads to the exact cell width, not the char count.
    assert_eq!(nebula_pad_to_cells("ab", 4), "ab  ");
    assert_eq!(nebula_pad_to_cells("目录", 4), "目录");
    // A wide char that would cross the edge is dropped and padded over.
    assert_eq!(nebula_pad_to_cells("目录", 3), "目 ");
    assert_eq!(nebula_pad_to_cells("abcd", 3), "abc");
}

#[test]
fn padding_drops_characters_without_width() {
    assert_eq!(nebula_pad_to_cells("a\u{301}b\u{7}", 3), "ab ");
    assert_eq!(nebula_pad_to_cells("", 2), "  ");
    assert_eq!(nebula_pad_to_cells("abc", 0), "");
}

#[test]
fn widths_come_from_the_unicode_tables() {
    assert_eq!(char_width_of('a'), Some(1));
    assert_eq!(char_width_of('目'), Some(2));
    assert_eq!(char_width_of('\u{301}'), Some(0));
    assert_eq!(char_width_of('\u{7}'), None);
    assert_eq!(cell_width_of('\u{7}'), 0);
    assert_eq!(text_cols("a目\u{7}\u{301}"), 3);
    assert_eq!(ink_cols("a目\u{7}\u{301}"), 4);
    assert_eq!(slot_cols("a目\u{7}\u{301}"), 5);
}

#[test]
fn wrapping_drops_the_space_at_a_break() {
    assert_eq!(wrap_display_cols("ab cd", 2), vec!["ab", "cd"]);
    assert_eq!(wrap_display_cols("ab cd", 3), vec!["ab ", "cd"]);
    assert_eq!(wrap_display_cols("abcde", 2), vec!["ab", "cd", "e"]);
    assert_eq!(wrap_display_cols("ab  c", 2), vec!["ab", "c"]);
    assert_eq!(wrap_display_cols("ab    ", 2), vec!["ab"]);
    assert_eq!(wrap_display_cols("  ab", 2), vec!["  ", "ab"]);
}

#[test]
fn lines_are_broken_only_where_they_are_full() {
    let lines = wrap_display_cols("一二三 four five 六", 5);
    assert_eq!(lines, vec!["一二", "三 fo", "ur fi", "ve 六"]);
    assert!(lines.iter().all(|line| !line.is_empty()));
}

#[test]
fn padding_twice_is_padding_once() {
    for text in ["", "目录\u{301}a", "abc", "longer than that"] {
        let once = nebula_pad_to_cells(text, 5);
        assert_eq!(text_cols(&once), 5);
        assert_eq!(nebula_pad_to_cells(&once, 5), once);
    }
}

#[test]
fn wrapping_counts_wide_characters_as_two() {
    assert_eq!(wrap_display_cols("目录a", 3), vec!["目", "录a"]);
    assert_eq!(wrap_display_cols("目录", 1), vec!["目", "录"]);
}

#[test]
fn wrapping_nothing_gives_one_empty_line() {
    assert_eq!(wrap_display_cols("", 5), vec![""]);
    assert_eq!(wrap_display_cols("ab ", 2), vec!["ab"]);
}

#[test]
fn wrapped_text_keeps_everything_but_spaces() {
    let text = "多行粘贴 will be run 行 by 行";
    let lines = wrap_display_cols(text, 7);
    let mut kept = String::new();
    for line in &lines {
        assert!(text_cols(line) <= 7);
        kept.push_str(line);
    }
    assert_eq!(kept.replace(' ', ""), text.replace(' ', ""));
}

#[test]
fn numbers_and_rows_of_one_character() {
    assert_eq!(decimal(0), "0");
    assert_eq!(decimal(1205), "1205");
    assert_eq!(decimal(u64::MAX), "18446744073709551615");
    assert_eq!(repeat_char('•', 3), "•••");
}
