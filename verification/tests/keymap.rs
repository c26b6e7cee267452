use nebula_display::color::Px;
use nebula_display::fields::TextField;
use nebula_display::fx::Fx;
use nebula_display::keymap::{
    keymap_clash_info, text_contains, KeymapRow, KeymapState, Keybind, QUICK_TERMINAL_ROW,
};
use nebula_display::lang::UiLanguage;
use nebula_display::page::{NebulaSettingsSection, PageState, TextDrag};

fn row(zh: &str, en: &str, combo: Option<&str>) -> KeymapRow {
    KeymapRow {
        zh: zh.to_string(),
        en: en.to_string(),
        combo: combo.map(|c| c.to_string()),
    }
}

fn bind(combo: &str, action: &str) -> Keybind {
    Keybind { combo: combo.to_string(), action: action.to_string() }
}

fn binds(k: &KeymapState) -> Vec<(&str, &str)> {
    k.keybinds.iter().map(|b| (b.combo.as_str(), b.action.as_str())).collect()
}

fn state() -> KeymapState {
    KeymapState {
        query: TextField::empty(),
        search_focus: false,
        capture: None,
        preview: String::new(),
        keybinds: Vec::new(),
        rebuild: false,
        quick_hotkey: "Alt+Q".to_string(),
        quick_error: None,
        quick_request: None,
    }
}

fn fx() -> Fx {
    Fx::none((1, 1))
}

#[test]
fn texts_are_searched_everywhere() {
    assert!(text_contains("abcabd", "abd"));
    assert!(text_contains("abc", ""));
    assert!(!text_contains("ab", "abc"));
    assert!(!text_contains("abc", "ac"));
}

#[test]
fn search_ignores_case_in_every_script() {
    let rows = vec![
        row("新建标签", "New Tab", Some("Ctrl+T")),
        row("关闭标签", "Close Tab", None),
        row("größe", "Ärger", None),
    ];
    let mut k = state();
    assert_eq!(k.keymap_visible_editable(&rows), vec![0, 1, 2]);
    k.keymap_search_edit("  NEW ", &mut fx());
    assert_eq!(k.keymap_visible_editable(&rows), vec![0]);
    k.query = TextField::holding("ctrl+t");
    assert_eq!(k.keymap_visible_readonly(&rows), vec![0]);
    k.query = TextField::holding("äRGER");
    assert_eq!(k.keymap_visible_editable(&rows), vec![2]);
    assert_eq!(k.keymap_slot_to_flat(&rows, 0), Some(2));
    assert_eq!(k.keymap_slot_to_flat(&rows, 1), None);
    k.query = TextField::holding("标签");
    assert_eq!(k.keymap_visible_editable(&rows), vec![0, 1]);
}

#[test]
fn clashes_mark_both_rows_and_name_the_first() {
    let rows = vec![
        row("甲", "A", Some("Ctrl+X")),
        row("乙", "B", Some("")),
        row("丙", "C", Some("ctrl+x")),
        row("丁", "D", Some("")),
        row("戊", "E", Some("CTRL+X")),
    ];
    let (marks, note) = keymap_clash_info(&rows, UiLanguage::English);
    assert_eq!(marks, vec![true, false, true, false, true]);
    assert_eq!(
        note,
        Some("Ctrl+X is bound to both A and C — only A, listed first, fires".to_string())
    );
    let (_, note) = keymap_clash_info(&rows, UiLanguage::Chinese);
    assert_eq!(note, Some("Ctrl+X 同时绑定了「甲」与「丙」——只有排前面的「甲」会触发".to_string()));
    assert_eq!(keymap_clash_info(&Vec::new(), UiLanguage::English), (Vec::new(), None));
}

#[test]
fn groups_count_their_shown_rows() {
    let rows = vec![row("", "one", None), row("", "two", None), row("", "only", Some("x"))];
    let mut k = state();
    k.query = TextField::holding("on");
    let p = k.keymap_pane_state(&rows, &vec![row("", "zoo", None)], &vec![2, 1], UiLanguage::English);
    assert_eq!(p.visible, vec![1, 1]);
    assert_eq!((p.readonly_visible, p.clash), (0, false));
}

#[test]
fn capturing_waits_for_one_key() {
    let mut k = state();
    let mut f = fx();
    k.focus_keymap_search(&mut f);
    assert!(k.keymap_search_active(true));
    assert!(!k.keymap_search_active(false));
    k.keymap_begin_capture(3, 3, &mut f);
    assert_eq!(k.capture, None);
    k.keymap_begin_capture_slot(&vec![row("", "one", None), row("", "two", None)], 1, &mut f);
    assert_eq!((k.capture, k.search_focus), (Some(1), false));
    k.keymap_capture_preview("Ctrl+", &mut f);
    assert_eq!(k.preview, "Ctrl+");
    k.keymap_cancel_capture(&mut f);
    assert_eq!((k.capture, k.preview.as_str()), (None, ""));
    k.keymap_capture_preview("Ctrl+", &mut f);
    assert_eq!(k.preview, "");
}

#[test]
fn key_has_one_action_and_action_one_key() {
    let mut k = state();
    let mut f = fx();
    k.keybinds = vec![bind("Ctrl+A", "Copy"), bind("Ctrl+B", "paste"), bind("Ctrl+C", "Close")];
    k.keymap_assign(2, "Ctrl+A".to_string(), Some("PASTE".to_string()), &mut f);
    assert_eq!(binds(&k), vec![("Ctrl+C", "Close"), ("Ctrl+A", "PASTE")]);
    assert!(k.rebuild && f.persist);
    k.keymap_assign(9, "Ctrl+Z".to_string(), None, &mut f);
    assert_eq!(binds(&k).len(), 2);
    k.keymap_clear_custom(2, Some(vec![bind("Ctrl+C", "Close")]), &mut f);
    assert_eq!(binds(&k), vec![("Ctrl+C", "Close")]);
}

#[test]
fn refused_quick_key_falls_back() {
    let mut k = state();
    let mut f = fx();
    k.keymap_assign(QUICK_TERMINAL_ROW, "Ctrl+K".to_string(), None, &mut f);
    assert_eq!(k.quick_hotkey, "Ctrl+K");
    assert_eq!(k.take_quick_hotkey_request(), Some("Ctrl+K".to_string()));
    assert_eq!(k.take_quick_hotkey_request(), None);
    k.quick_hotkey_registration_done("Ctrl+K", false, Some("taken".to_string()), "Alt+Q", &mut f);
    assert_eq!((k.quick_hotkey.as_str(), k.quick_error.as_deref()), ("Alt+Q", Some("taken")));
    k.quick_hotkey_registration_done("Other", false, None, "Alt+Z", &mut f);
    assert_eq!(k.quick_hotkey, "Alt+Q");
    k.quick_hotkey_registration_done("Alt+Q", true, None, "Alt+Z", &mut f);
    assert_eq!(k.quick_error, None);
    k.keymap_clear_custom(QUICK_TERMINAL_ROW, None, &mut f);
    assert_eq!(k.quick_request.as_deref(), Some(""));
}

#[test]
fn key_search_is_a_text_field() {
    let mut k = state();
    let mut f = fx();
    k.keymap_search_push('\n', &mut f);
    assert!(!f.redraw);
    k.keymap_search_push('a', &mut f);
    k.keymap_search_edit("b\tc", &mut f);
    assert_eq!(k.query.text, vec!['a', 'b', 'c']);
    k.keymap_search_move(false, true, &mut f);
    assert_eq!(k.keymap_search_selected_text(), Some("c".to_string()));
    k.keymap_search_backspace(&mut f);
    k.keymap_search_jump(false, false, &mut f);
    k.keymap_search_delete_forward(&mut f);
    assert_eq!(k.query.text, vec!['b']);
    k.keymap_search_select_all(&mut f);
    assert_eq!(k.keymap_search_selected_text(), Some("b".to_string()));
    k.search_focus = true;
    k.keymap_search_escape(&mut f);
    assert!(k.query.text.is_empty() && k.search_focus);
    k.keymap_search_escape(&mut f);
    assert!(!k.search_focus);
    f = fx();
    k.blur_keymap_search(&mut f);
    assert!(!f.redraw);
}

#[test]
fn key_search_drag_selects() {
    let mut k = state();
    k.query = TextField::holding("abcd");
    let mut p = PageState {
        open: true,
        special_tab: true,
        section: NebulaSettingsSection::Other(1),
        scroll: Px { bits: 0 },
        dropdown: None,
        text_drag: None,
        chrome_hover: 0,
        settings_hover: 0,
        settings_pressed: 0,
        message_close: false,
        message_close_hover: false,
    };
    k.begin_keymap_search_drag(1, false, &mut p, &mut fx());
    assert_eq!(p.text_drag, Some(TextDrag::Keymap));
    k.keymap_search_place(9, true, &mut fx());
    assert_eq!(k.keymap_search_selected_text(), Some("bcd".to_string()));
}
