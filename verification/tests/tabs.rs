use nebula_display::fx::Fx;
use nebula_display::rename::{caret_for_column, TabRename};
use nebula_display::tabs::{
    tab_drop_index_from_visible_rows, tab_make_way, SplitNav, TabDropAction, TabShift, TabState,
};
use nebula_display::color::Px;

fn tabs(n: usize) -> TabState {
    let mut t = TabState {
        labels: Vec::new(),
        colors: Vec::new(),
        bells: Vec::new(),
        running: Vec::new(),
        attention: Vec::new(),
        failed: Vec::new(),
        flashing: Vec::new(),
        logos: Vec::new(),
        shells: Vec::new(),
        ai_fork: Vec::new(),
        active: 0,
        reorderable: true,
        drag: None,
        anim: Vec::new(),
        rename: None,
        rename_caret: 0,
        rename_select_all: false,
    };
    let labels = (0..n).map(|i| format!("tab{i}")).collect();
    set_labels(&mut t, labels);
    t
}

fn set_labels(t: &mut TabState, labels: Vec<String>) {
    t.set_chrome_tabs(
        labels,
        vec![],
        vec![],
        vec![true],
        vec![],
        vec![],
        vec![],
        vec![],
        vec!["bash".to_string()],
        vec![],
        9,
        true,
    );
}

#[test]
fn tab_drop_ignores_scrolled_out_zero_rows() {
    // Tabs 3..=12 are visible; the rest is scrolled out of view.
    let rows: Vec<(usize, f32, f32)> =
        (3..=12).map(|i| (i, 100.0 + (i - 3) as f32 * 30.0, 24.0)).collect();
    let passed = |y: f32| -> Vec<(usize, bool)> {
        rows.iter().map(|&(i, top, h)| (i, y > top + h * 0.5)).collect()
    };

    assert_eq!(tab_drop_index_from_visible_rows(5, &passed(90.0), 16), 3);
    assert_eq!(tab_drop_index_from_visible_rows(5, &passed(130.0), 16), 4);
    assert_eq!(tab_drop_index_from_visible_rows(5, &passed(500.0), 16), 12);
    assert_eq!(tab_drop_index_from_visible_rows(5, &Vec::new(), 16), 5);
}

#[test]
fn drop_stays_among_the_tabs() {
    let below = vec![(0, true), (1, true), (2, true)];
    assert_eq!(tab_drop_index_from_visible_rows(9, &below, 3), 2);
    assert_eq!(tab_drop_index_from_visible_rows(0, &below, 0), 0);
}

#[test]
fn rows_make_way_for_a_dragged_tab() {
    assert_eq!(tab_make_way(2, 1, 3), TabShift::Up);
    assert_eq!(tab_make_way(3, 1, 3), TabShift::Up);
    assert_eq!(tab_make_way(4, 1, 3), TabShift::Stay);
    assert_eq!(tab_make_way(1, 3, 1), TabShift::Down);
    assert_eq!(tab_make_way(3, 3, 1), TabShift::Stay);
    // Every other row is drawn where it stands after the drop.
    let before = ["a", "b", "c", "d", "e"];
    let (source, target) = (1, 3);
    let mut after = before.to_vec();
    let moved = after.remove(source);
    after.insert(target, moved);
    for (i, label) in before.iter().enumerate() {
        if i != source {
            let slot = match tab_make_way(i, source, target) {
                TabShift::Up => i - 1,
                TabShift::Down => i + 1,
                TabShift::Stay => i,
            };
            assert_eq!(after[slot], *label);
        }
    }
}

#[test]
fn every_list_follows_the_labels() {
    let mut t = tabs(3);
    assert_eq!(t.running, [true, false, false]);
    assert_eq!(t.shells, ["bash", "", ""]);
    assert_eq!(t.logos, [None, None, None]);
    assert_eq!(t.active, 2);
    assert!(t.any_tab_running());
    assert!(!t.any_tab_flashing());
    t.arm_tab_drag(2);
    set_labels(&mut t, Vec::new());
    assert_eq!(t.labels, ["."]);
    assert_eq!(t.active, 0);
    assert!(!t.tab_drag_armed());
}

#[test]
fn press_without_a_move_is_a_click() {
    let mut t = tabs(3);
    assert_eq!(t.end_tab_drag(&Vec::new()), None);
    t.arm_tab_drag(1);
    assert!(!t.update_tab_drag(false, Some(SplitNav::Left)));
    assert_eq!(t.end_tab_drag(&vec![(0, true)]), Some(TabDropAction::Click(1)));
    assert!(!t.tab_drag_armed());
}

#[test]
fn drag_over_the_terminal_docks() {
    let mut t = tabs(1);
    t.arm_tab_drag(0);
    assert!(t.update_tab_drag(true, Some(SplitNav::Down)));
    assert_eq!(
        t.end_tab_drag(&Vec::new()),
        Some(TabDropAction::Dock { source: 0, nav: SplitNav::Down })
    );
}

#[test]
fn drag_in_the_strip_moves_the_tab_and_its_pill() {
    let mut t = tabs(3);
    t.anim = vec![Px { bits: 1 }, Px { bits: 2 }, Px { bits: 3 }];
    t.arm_tab_drag(0);
    t.update_tab_drag(true, None);
    let rows = vec![(0, true), (1, true), (2, true)];
    assert_eq!(t.end_tab_drag(&rows), Some(TabDropAction::Reorder { from: 0, to: 2 }));
    assert_eq!(t.anim, [Px { bits: 2 }, Px { bits: 3 }, Px { bits: 1 }]);
    // Dropped where it came from, or where tabs cannot be moved: a click.
    t.arm_tab_drag(0);
    t.update_tab_drag(true, None);
    assert_eq!(t.end_tab_drag(&vec![(0, true), (1, false)]), Some(TabDropAction::Click(0)));
    t.reorderable = false;
    t.arm_tab_drag(0);
    t.update_tab_drag(true, None);
    assert_eq!(t.end_tab_drag(&rows), Some(TabDropAction::Click(0)));
}

fn renaming(name: &str) -> TabState {
    let mut t = tabs(1);
    t.rename = Some(TabRename { index: 0, name: name.chars().collect() });
    t.rename_caret = name.chars().count();
    t
}

fn name(t: &TabState) -> String {
    t.rename.as_ref().expect("a rename").name.iter().collect()
}

#[test]
fn renaming_leaves_control_characters_out() {
    let mut t = renaming("ab");
    let mut fx = Fx::none((1, 1));
    t.tab_rename_insert("\n\u{7}", &mut fx);
    assert!(!fx.update.dirty);
    t.tab_rename_insert("c\td", &mut fx);
    assert_eq!((name(&t).as_str(), t.rename_caret), ("abcd", 4));
    assert!(fx.update.dirty);
    t.tab_rename_backspace(&mut fx);
    t.tab_rename_backspace(&mut fx);
    assert_eq!((name(&t).as_str(), t.rename_caret), ("ab", 2));
}

#[test]
fn renaming_replaces_a_select_all() {
    let mut t = renaming("old");
    let mut fx = Fx::none((1, 1));
    assert_eq!(t.tab_rename_selected_text(), None);
    t.tab_rename_select_all(&mut fx);
    assert_eq!(t.tab_rename_selected_text(), Some("old".to_string()));
    t.tab_rename_insert("新", &mut fx);
    assert_eq!((name(&t).as_str(), t.rename_caret), ("新", 1));
    t.tab_rename_select_all(&mut fx);
    t.tab_rename_backspace(&mut fx);
    assert_eq!((name(&t).as_str(), t.rename_caret), ("", 0));
    t.tab_rename_select_all(&mut fx);
    assert_eq!(t.tab_rename_selected_text(), None);
}

#[test]
fn renaming_moves_the_caret() {
    let mut t = renaming("abc");
    let mut fx = Fx::none((1, 1));
    t.tab_rename_move_caret(-1, &mut fx);
    assert_eq!(t.rename_caret, 2);
    t.tab_rename_move_caret(-9, &mut fx);
    assert_eq!(t.rename_caret, 0);
    t.tab_rename_move_caret(9, &mut fx);
    assert_eq!(t.rename_caret, 3);
    t.tab_rename_select_all(&mut fx);
    t.tab_rename_move_caret(-1, &mut fx);
    assert_eq!((t.rename_caret, t.rename_select_all), (0, false));
    t.tab_rename_caret_edge(true, &mut fx);
    assert_eq!(t.rename_caret, 3);
    t.tab_rename_caret_edge(false, &mut fx);
    assert_eq!(t.rename_caret, 0);
}

#[test]
fn click_in_a_wide_character_goes_before_it() {
    let chars: Vec<char> = "a目b".chars().collect();
    assert_eq!(caret_for_column(&chars, 0), 0);
    assert_eq!(caret_for_column(&chars, 1), 1);
    assert_eq!(caret_for_column(&chars, 2), 1);
    assert_eq!(caret_for_column(&chars, 3), 2);
    assert_eq!(caret_for_column(&chars, 99), 3);
    let mut t = renaming("a目b");
    t.tab_rename_click(3, &mut Fx::none((1, 1)));
    assert_eq!(t.rename_caret, 2);
}

#[test]
fn keys_without_a_rename_do_nothing() {
    let mut t = tabs(1);
    let mut fx = Fx::none((1, 1));
    t.tab_rename_insert("x", &mut fx);
    t.tab_rename_backspace(&mut fx);
    t.tab_rename_select_all(&mut fx);
    t.tab_rename_move_caret(1, &mut fx);
    t.tab_rename_click(1, &mut fx);
    assert!(t.rename.is_none() && !fx.update.dirty);
}
