use nebula_display::fx::Fx;
use nebula_display::sync::{SyncCommit, SyncStart, SyncState};

fn chars(s: &str) -> Vec<char> {
    s.chars().collect()
}

fn form() -> SyncState {
    let mut s = SyncState {
        inputs: vec![Vec::new(); 4],
        auto_pull: false,
        password_set: false,
        passphrase_set: false,
        focus: None,
        status: None,
        busy: false,
    };
    s.load_sync_state("https://a", "me", true, true, false);
    s
}

#[test]
fn sync_form_shows_no_secret() {
    let s = form();
    assert_eq!(s.inputs, vec![chars("https://a"), chars("me"), chars(""), chars("")]);
    assert!(s.auto_pull && s.password_set && !s.passphrase_set);
}

#[test]
fn leaving_the_address_saves_it() {
    let mut s = form();
    let mut fx = Fx::none((1, 1));
    assert!(matches!(s.focus_sync_field(0, &mut fx), SyncCommit::Nothing));
    s.sync_field_push('b', &mut fx);
    s.sync_field_push(' ', &mut fx);
    assert_eq!(s.inputs[0], chars("https://ab"));
    match s.focus_sync_field(7, &mut fx) {
        SyncCommit::SaveConfig { url, username, auto_pull } => {
            assert_eq!((url.as_str(), username.as_str(), auto_pull), ("https://ab", "me", true))
        },
        other => panic!("{other:?}"),
    }
    assert_eq!(s.focus, Some(3));
}

#[test]
fn secrets_go_to_the_store() {
    let mut s = form();
    let mut fx = Fx::none((1, 1));
    s.focus_sync_field(2, &mut fx);
    s.sync_field_paste("a b", &mut fx);
    match s.commit_sync_field(&mut fx) {
        SyncCommit::StorePassword { username, secret } => {
            assert_eq!((username.as_str(), secret.as_str()), ("me", "a b"))
        },
        other => panic!("{other:?}"),
    }
    assert!(s.inputs[2].is_empty());
    s.focus_sync_field(3, &mut fx);
    s.sync_field_paste("pp", &mut fx);
    s.sync_field_backspace(&mut fx);
    match s.leave_page(&mut fx) {
        SyncCommit::StorePassphrase { secret, .. } => assert_eq!(secret, "p"),
        other => panic!("{other:?}"),
    }
    assert!(s.inputs[3].is_empty());
    s.focus_sync_field(3, &mut fx);
    assert!(matches!(s.commit_sync_field(&mut fx), SyncCommit::Nothing));
}

#[test]
fn stored_secrets_are_reported() {
    let mut s = form();
    s.sync_secret_stored(false, Ok(()));
    assert!(s.passphrase_set);
    assert_eq!(s.status, Some(("同步口令已保存到凭据管理器".to_string(), false)));
    s.sync_secret_stored(true, Ok(()));
    assert_eq!(s.status, Some(("WebDAV 密码已保存到凭据管理器".to_string(), false)));
    s.sync_secret_stored(true, Err("no store".to_string()));
    assert_eq!(s.status, Some(("no store".to_string(), true)));
    s.sync_config_failed("disk".to_string());
    assert_eq!(s.status, Some(("disk".to_string(), true)));
}

#[test]
fn cancelled_sync_field_goes_back() {
    let mut s = form();
    let mut fx = Fx::none((1, 1));
    for (i, shown) in [(0, "u0"), (1, "n0"), (2, ""), (3, "")] {
        s.focus = Some(i);
        s.inputs[i] = chars("typed");
        s.cancel_sync_field("u0", "n0", &mut fx);
        assert_eq!((s.focus, s.inputs[i].clone()), (None, chars(shown)));
    }
}

#[test]
fn one_sync_action_runs_at_a_time() {
    let mut s = form();
    let mut fx = Fx::none((1, 1));
    s.focus_sync_field(1, &mut fx);
    assert!(matches!(s.begin_sync_action(&mut fx), SyncStart::Leave(SyncCommit::SaveConfig { .. })));
    assert!(!s.busy);
    assert!(matches!(s.begin_sync_action(&mut fx), SyncStart::Started));
    assert_eq!(s.status, Some(("同步中…".to_string(), false)));
    assert!(matches!(s.begin_sync_action(&mut fx), SyncStart::Busy));
    s.sync_action_done("ok".to_string(), false, true, true, &mut fx);
    assert!(!s.busy && s.passphrase_set);
    assert!(matches!(
        s.toggle_sync_auto_pull(&mut fx),
        SyncCommit::SaveConfig { auto_pull: false, .. }
    ));
}

#[test]
fn sync_fields_have_a_limit() {
    let mut s = form();
    let mut fx = Fx::none((1, 1));
    s.focus_sync_field(1, &mut fx);
    s.sync_field_paste(&"x".repeat(300), &mut fx);
    assert_eq!(s.inputs[1].len(), 256);
}
