use nebula_display::lang::UiLanguage;
use nebula_display::popup::{
    draw_completion_popup, NebulaCompletionItem, NebulaCompletionKind, PopupGrid,
};

fn items(labels: &[&str]) -> Vec<NebulaCompletionItem> {
    labels
        .iter()
        .map(|l| NebulaCompletionItem {
            kind: NebulaCompletionKind::Command,
            label: l.to_string(),
        })
        .collect()
}

fn grid(columns: usize, screen_lines: usize, anchor_line: usize, anchor_column: usize) -> PopupGrid {
    PopupGrid { columns, screen_lines, anchor_line, anchor_column }
}

#[test]
fn tags_and_icons_of_completions() {
    assert_eq!(NebulaCompletionKind::History.tag(UiLanguage::English), "hist");
    assert_eq!(NebulaCompletionKind::Command.tag(UiLanguage::English), "cmd");
    assert_eq!(NebulaCompletionKind::Dir.tag(UiLanguage::Chinese), "目录");
    assert_eq!(NebulaCompletionKind::File.tag(UiLanguage::Chinese), "文件");
    assert_eq!(NebulaCompletionKind::History.icon(), '↶');
    assert_eq!(NebulaCompletionKind::Command.icon(), '›');
    assert_eq!(NebulaCompletionKind::Dir.icon(), '/');
    assert_eq!(NebulaCompletionKind::File.icon(), '·');
}

#[test]
fn list_stands_below_the_cursor() {
    let layout =
        draw_completion_popup(&items(&["git", "grep"]), Some(1), grid(40, 20, 3, 5), UiLanguage::English)
            .expect("a list");
    assert_eq!(layout.span.start_line, 4);
    assert_eq!(layout.span.start_col, 5);
    // Four columns of label, three of tag, four around them.
    assert_eq!(layout.span.width, 11);
    assert_eq!(layout.span.row_count, 2);
    assert_eq!(layout.selected_row, Some(1));
    assert_eq!(layout.rows[0].label, "› git  ");
    assert_eq!(layout.rows[0].tag, "cmd ");
    assert_eq!(layout.rows[0].tag_col, 12);
    assert!(!layout.rows[0].selected);
    assert!(layout.rows[1].selected);
    assert_eq!(layout.rows[1].line, 5);
}

#[test]
fn list_moves_above_where_there_is_more_room() {
    let layout = draw_completion_popup(
        &items(&["a", "b", "c", "d"]),
        None,
        grid(40, 10, 8, 0),
        UiLanguage::English,
    )
    .expect("a list");
    assert_eq!(layout.span.row_count, 4);
    assert_eq!(layout.span.start_line, 4);
    assert_eq!(layout.selected_row, None);
}

#[test]
fn selected_item_is_scrolled_into_view() {
    let names: Vec<String> = (0..12).map(|i| format!("item{i}")).collect();
    let refs: Vec<&str> = names.iter().map(|s| s.as_str()).collect();
    let layout = draw_completion_popup(&items(&refs), Some(11), grid(40, 30, 0, 0), UiLanguage::English)
        .expect("a list");
    assert_eq!(layout.span.row_count, 8);
    assert_eq!(layout.span.offset, 4);
    assert_eq!(layout.selected_row, Some(7));
    assert_eq!(layout.rows[7].label, "› item11 ");
}

#[test]
fn list_slides_left_at_the_right_edge() {
    let layout =
        draw_completion_popup(&items(&["status"]), None, grid(20, 10, 0, 15), UiLanguage::English)
            .expect("a list");
    // Thirteen columns are wanted, five are left: it slides by eight.
    assert_eq!(layout.span.start_col, 7);
    assert_eq!(layout.span.width, 13);
    assert_eq!(layout.span.start_col + layout.span.width, 20);
}

#[test]
fn list_needs_room_and_items() {
    let one = items(&["ls"]);
    assert!(draw_completion_popup(&one, None, grid(11, 10, 0, 0), UiLanguage::English).is_none());
    assert!(draw_completion_popup(&one, None, grid(40, 1, 0, 0), UiLanguage::English).is_none());
    assert!(draw_completion_popup(&items(&[]), None, grid(40, 10, 0, 0), UiLanguage::English).is_none());
}
