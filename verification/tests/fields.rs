use nebula_display::fields::{printable_chars, TextField};

fn text(f: &TextField) -> String {
    f.text.iter().collect()
}

fn chars(s: &str) -> Vec<char> {
    s.chars().collect()
}

#[test]
fn typing_replaces_the_selection() {
    let mut f = TextField::holding("hello");
    f.insert(&chars(" you"));
    assert_eq!((text(&f).as_str(), f.caret), ("hello you", 9));
    f.select_all();
    assert_eq!(f.selected_text(), Some("hello you".to_string()));
    f.insert(&chars("x"));
    assert_eq!((text(&f).as_str(), f.caret, f.anchor), ("x", 1, None));
}

#[test]
fn backspace_takes_back_a_typed_character() {
    let mut f = TextField::holding("ac");
    f.move_by(-1, false);
    f.insert(&chars("b"));
    assert_eq!(text(&f), "abc");
    f.backspace();
    assert_eq!((text(&f).as_str(), f.caret), ("ac", 1));
    f.backspace();
    f.backspace();
    assert_eq!((text(&f).as_str(), f.caret), ("c", 0));
}

#[test]
fn delete_erases_behind_the_caret() {
    let mut f = TextField::holding("abc");
    f.delete_forward();
    assert_eq!(text(&f), "abc");
    f.jump(false, false);
    f.delete_forward();
    assert_eq!((text(&f).as_str(), f.caret), ("bc", 0));
    f.select_all();
    f.delete_forward();
    assert_eq!(text(&f), "");
}

#[test]
fn selection_collapses_to_the_matching_end() {
    let mut f = TextField::holding("abcd");
    f.place(1, false);
    f.move_by(2, true);
    assert_eq!(f.selected_text(), Some("bc".to_string()));
    f.move_by(-1, false);
    assert_eq!((f.caret, f.anchor), (1, None));
    f.jump(true, true);
    assert_eq!(f.selected_text(), Some("bcd".to_string()));
    f.move_by(1, false);
    assert_eq!(f.caret, 4);
    f.place(99, false);
    assert_eq!(f.caret, 4);
    f.move_by(-99, false);
    assert_eq!(f.caret, 0);
}

#[test]
fn empty_field_selects_nothing() {
    let mut f = TextField::empty();
    assert_eq!(f.selected_text(), None);
    f.select_all();
    assert_eq!(f.selected_text(), None);
}

#[test]
fn control_characters_are_left_out() {
    assert_eq!(printable_chars("a\r\n\u{85}b\u{7f}目"), chars("ab目"));
}
