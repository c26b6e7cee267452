use nebula_display::color::Px;
use nebula_display::fields::TextField;
use nebula_display::fx::Fx;
use nebula_display::lang::UiLanguage;
use nebula_display::page::{NebulaSettingsSection, PageState, TextDrag};
use nebula_display::providers::{AiProvider, ProviderState, ProviderStep, KEY_FIELD};

fn provider(id: &str) -> AiProvider {
    AiProvider {
        id: id.to_string(),
        name: format!("name-{id}"),
        note: String::new(),
        website_url: String::new(),
        base_url: "https://api".to_string(),
        model: "m".to_string(),
        enabled: true,
        codex_goals: false,
        codex_remote_compaction: false,
        api_key_set: true,
        requires_api_key: true,
    }
}

fn state() -> ProviderState {
    let mut s = ProviderState {
        list: vec![provider("a"), provider("b")],
        active_id: String::new(),
        inputs: (0..6).map(|_| TextField::empty()).collect(),
        focus: None,
        status: None,
        test_seq: 7,
        test_request: None,
        codex_confirm: None,
        save: false,
    };
    s.open_page();
    s
}

fn page() -> PageState {
    PageState {
        open: true,
        special_tab: true,
        section: NebulaSettingsSection::Providers,
        scroll: Px { bits: 0 },
        dropdown: None,
        text_drag: None,
        chrome_hover: 0,
        settings_hover: 0,
        settings_pressed: 0,
        message_close: false,
        message_close_hover: false,
    }
}

fn fx() -> Fx {
    Fx::none((1, 1))
}

fn input(s: &ProviderState, i: usize) -> String {
    s.inputs[i].text.iter().collect()
}

fn says(s: &ProviderState) -> (&str, bool) {
    let (m, e) = s.status.as_ref().expect("a message");
    (m, *e)
}

#[test]
fn first_provider_is_shown_at_first() {
    let s = state();
    assert_eq!(s.active_id, "a");
    assert_eq!(s.provider_edit_index(), Some(0));
    assert_eq!((input(&s, 0), input(&s, 3), input(&s, KEY_FIELD)), ("name-a".into(), "https://api".into(), "".into()));
    assert_eq!(s.provider_count(), 2);
}

#[test]
fn leaving_a_field_takes_it_over() {
    let mut s = state();
    let mut f = fx();
    assert!(s.focus_provider_field(4, &mut f).is_none());
    s.provider_field_paste("-x y", &mut f);
    assert_eq!(input(&s, 4), "m-xy");
    assert!(s.focus_provider_field(1, &mut f).is_none());
    assert_eq!(s.list[0].model, "m-xy");
    assert!(s.save);
    s.provider_field_paste("a note ", &mut f);
    assert!(s.commit_provider_field(&mut f).is_none());
    assert_eq!(s.list[0].note, "a note");
    assert_eq!(s.focus, None);
}

#[test]
fn key_goes_out_once_and_is_never_copied() {
    let mut s = state();
    let mut f = fx();
    s.focus_provider_field(KEY_FIELD, &mut f);
    s.provider_field_paste("sk 1", &mut f);
    s.provider_field_select_all(&mut f);
    assert_eq!(s.provider_field_selected_text(), None);
    assert_eq!(s.provider_field_cut(&mut f), None);
    assert_eq!(input(&s, KEY_FIELD), "sk1");
    let key = s.commit_provider_field(&mut f).expect("a key");
    assert_eq!((key.provider_id.as_str(), key.value.as_str()), ("a", "sk1"));
    assert_eq!(input(&s, KEY_FIELD), "");
    s.list[0].api_key_set = false;
    s.provider_key_stored(Ok(()), UiLanguage::English);
    assert!(s.list[0].api_key_set);
    assert_eq!(says(&s), ("API key saved to the credential manager", false));
    s.provider_key_stored(Err("locked".to_string()), UiLanguage::English);
    assert_eq!(says(&s), ("locked", true));
}

#[test]
fn choosing_another_provider_leaves_the_field_first() {
    let mut s = state();
    let mut f = fx();
    s.focus_provider_field(0, &mut f);
    assert!(matches!(s.provider_select(1, &mut f), ProviderStep::Leave(None)));
    assert_eq!(s.active_id, "a");
    assert!(matches!(s.provider_select(1, &mut f), ProviderStep::Done));
    assert_eq!((s.active_id.as_str(), input(&s, 0).as_str()), ("b", "name-b"));
    assert_eq!(s.test_seq, 8);
    assert!(matches!(s.provider_select(5, &mut f), ProviderStep::Done));
    assert_eq!(s.active_id, "b");
    s.provider_add(provider("c"), &mut f);
    assert_eq!((s.list.len(), s.active_id.as_str()), (3, "c"));
}

#[test]
fn switches_of_the_active_provider() {
    let mut s = state();
    let mut f = fx();
    s.codex_confirm = Some("a".to_string());
    s.provider_toggle_codex_goals(&mut f);
    s.provider_toggle_codex_remote(&mut f);
    s.provider_toggle_enabled(&mut f);
    assert!(s.list[0].codex_goals && s.list[0].codex_remote_compaction && !s.list[0].enabled);
    assert!(!s.list[1].codex_goals && s.codex_confirm.is_none());
    s.active_id = "zzz".to_string();
    s.provider_toggle_enabled(&mut f);
    assert!(s.list[1].enabled);
}

#[test]
fn codex_is_written_on_the_second_click() {
    let mut s = state();
    let mut f = fx();
    let (_, p) = s.provider_apply_codex(UiLanguage::English, &mut f);
    assert!(p.is_none());
    assert_eq!(
        says(&s).0,
        "Click again: the API key will be written to Codex auth.json in plaintext (with backup)"
    );
    let (_, p) = s.provider_apply_codex(UiLanguage::English, &mut f);
    assert_eq!(p.map(|p| p.id), Some("a".to_string()));
    assert!(s.codex_confirm.is_none());
    s.provider_codex_applied(Ok("/x".to_string()), UiLanguage::English, &mut f);
    assert_eq!(says(&s), ("Applied to Codex: /x", false));
    s.provider_codex_applied(Err("no".to_string()), UiLanguage::English, &mut f);
    assert_eq!(says(&s), ("no", true));
}

#[test]
fn connection_test_needs_a_complete_provider() {
    assert!(provider("a").is_testable());
    for break_it in [0, 1, 2] {
        let mut s = state();
        match break_it {
            0 => s.list[0].base_url = "ftp://x".to_string(),
            1 => s.list[0].model = " ".to_string(),
            _ => s.list[0].api_key_set = false,
        }
        s.provider_test(UiLanguage::English, &mut fx());
        assert_eq!(says(&s), ("Enter an endpoint and model, then save an API key", true));
        assert!(s.test_request.is_none());
    }
    let mut free = provider("a");
    free.api_key_set = false;
    free.requires_api_key = false;
    assert!(free.is_testable());
}

#[test]
fn late_answers_are_ignored() {
    let mut s = state();
    let mut f = fx();
    s.provider_test(UiLanguage::English, &mut f);
    let r = s.take_provider_test_request().expect("a request");
    assert_eq!((r.request_id, r.provider.id.as_str()), (8, "a"));
    assert!(s.take_provider_test_request().is_none());
    s.provider_test_done(8, "a", "OK", true, 42, &mut f);
    assert_eq!(says(&s), ("OK · 42 ms", false));
    s.provider_test_done(7, "a", "old", false, 1, &mut f);
    assert_eq!(says(&s), ("OK · 42 ms", false));
    s.provider_select(1, &mut f);
    s.provider_test_done(8, "b", "late", true, 1, &mut f);
    assert!(s.status.is_none());
    s.test_seq = u64::MAX;
    s.provider_test(UiLanguage::English, &mut f);
    assert_eq!(s.test_seq, 0);
}

#[test]
fn deleted_provider_leaves_the_form() {
    let mut s = state();
    let mut f = fx();
    s.provider_delete(Err("busy".to_string()), UiLanguage::English, &mut f);
    assert_eq!(says(&s), ("busy", true));
    s.provider_delete(Ok((vec![provider("b")], "b".to_string())), UiLanguage::English, &mut f);
    assert_eq!((input(&s, 0).as_str(), says(&s)), ("name-b", ("Provider deleted", false)));
    s.provider_delete(Ok((Vec::new(), String::new())), UiLanguage::English, &mut f);
    assert_eq!(input(&s, 0), "");
    assert_eq!(s.provider_edit_index(), None);
}

#[test]
fn provider_fields_are_text_fields() {
    let mut s = state();
    let mut f = fx();
    s.focus_provider_field(2, &mut f);
    for c in "ab c".chars() {
        s.provider_field_push(c, &mut f);
    }
    assert_eq!(input(&s, 2), "abc");
    s.provider_field_move(false, true, &mut f);
    assert_eq!(s.provider_field_cut(&mut f), Some("c".to_string()));
    s.provider_field_jump(false, false, &mut f);
    s.provider_field_delete_forward(&mut f);
    s.provider_field_jump(true, false, &mut f);
    s.provider_field_backspace(&mut f);
    assert_eq!(input(&s, 2), "");
    s.provider_field_paste(&"x".repeat(600), &mut f);
    assert_eq!(input(&s, 2).len(), 512);
    let mut p = page();
    s.begin_provider_field_drag(2, Some(3), false, &mut p, &mut f);
    assert_eq!((p.text_drag, s.inputs[2].caret), (Some(TextDrag::Provider(2)), 3));
    s.provider_field_place(2, Some(5), true, &mut f);
    assert_eq!(s.provider_field_selected_text(), Some("xx".to_string()));
    s.provider_field_place(1, Some(5), true, &mut f);
    s.provider_field_place(2, None, true, &mut f);
    assert_eq!(s.inputs[2].caret, 5);
}

#[test]
fn saving_reports_how_it_went() {
    let mut s = state();
    let mut f = fx();
    s.provider_save(Ok(()), UiLanguage::English, &mut f);
    assert_eq!(says(&s), ("Provider saved", false));
    s.provider_save(Err("disk".to_string()), UiLanguage::English, &mut f);
    assert_eq!(says(&s), ("disk", true));
    s.focus_provider_field(0, &mut f);
    assert!(matches!(s.provider_save(Ok(()), UiLanguage::English, &mut f), ProviderStep::Leave(_)));
    s.provider_sync_inputs();
    assert_eq!(input(&s, 0), "name-a");
}
