use nebula_display::backup::{
    BackupCommit, BackupOperation, BackupProtocol, BackupSelection, BackupState, BackupTarget,
    LocalBackup,
};
use nebula_display::fx::Fx;
use nebula_display::lang::UiLanguage;
use nebula_display::modal::NebulaConfirm;
use nebula_display::slots::{accepted_chars, paste_into, type_into, SlotRule};

fn nothing_selected() -> BackupSelection {
    BackupSelection {
        appearance: false,
        config: false,
        ssh: false,
        sync: false,
        assistant: false,
        session: false,
        directory_history: false,
        command_history: false,
        fonts: false,
    }
}

fn state(protocol: BackupProtocol, secret_field: Option<usize>) -> BackupState {
    BackupState {
        selection: nothing_selected().toggle(0),
        target: BackupTarget { protocol, field_count: 5, secret_field },
        inputs: vec![Vec::new(); 5],
        focus: None,
        secret_set: false,
        status: None,
        status_remote: false,
        busy: false,
        operation: None,
        passphrase: Vec::new(),
        passphrase_selected: false,
    }
}

fn chars(s: &str) -> Vec<char> {
    s.chars().collect()
}

fn says(b: &BackupState) -> (&str, bool) {
    let (m, e) = b.status.as_ref().expect("a message");
    (m, *e)
}

#[test]
fn toggling_an_item_twice_changes_nothing() {
    for i in 0..9 {
        let once = nothing_selected().toggle(i);
        assert!(!once.is_empty());
        assert_eq!(once.toggle(i), nothing_selected());
    }
    assert_eq!(nothing_selected().toggle(9), nothing_selected());
    let mut b = state(BackupProtocol::WebDav, None);
    let mut fx = Fx::none((1, 1));
    b.toggle_backup_selection(9, &mut fx);
    assert!(!fx.update.dirty);
    b.toggle_backup_selection(8, &mut fx);
    assert!(b.selection.fonts && fx.update.dirty);
}

#[test]
fn slots_take_what_their_rule_allows() {
    let mut slot = chars("ab");
    assert!(type_into(&mut slot, SlotRule { max: 3, spaces: false }, 'c'));
    assert!(!type_into(&mut slot, SlotRule { max: 3, spaces: false }, 'd'));
    assert!(!type_into(&mut slot, SlotRule { max: 9, spaces: false }, ' '));
    assert!(type_into(&mut slot, SlotRule { max: 9, spaces: true }, ' '));
    assert!(!type_into(&mut slot, SlotRule { max: 9, spaces: true }, '\n'));
    assert_eq!(slot, chars("abc "));
    assert!(paste_into(&mut slot, SlotRule { max: 6, spaces: false }, " x\u{3000}y z"));
    assert_eq!(slot, chars("abc xy"));
    assert!(!paste_into(&mut slot, SlotRule { max: 6, spaces: false }, "q"));
    assert_eq!(accepted_chars(SlotRule { max: 0, spaces: false }, "a b\tc"), chars("abc"));
}

#[test]
fn destination_fields_are_edited_and_saved() {
    let mut b = state(BackupProtocol::WebDav, Some(2));
    let mut fx = Fx::none((1, 1));
    b.focus_backup_remote_field(9, &mut fx);
    assert_eq!(b.focus, Some(4));
    b.focus = Some(0);
    b.backup_remote_field_paste("https://x y", &mut fx);
    b.backup_remote_field_push(' ', &mut fx);
    b.backup_remote_field_backspace(&mut fx);
    assert_eq!(b.inputs[0], chars("https://x"));
    match b.commit_backup_remote_field(&mut fx) {
        BackupCommit::SaveSlot { index: 0, value } => assert_eq!(value, "https://x"),
        other => panic!("{other:?}"),
    }
    assert_eq!(b.focus, None);
    assert!(matches!(b.commit_backup_remote_field(&mut fx), BackupCommit::Nothing));
}

#[test]
fn secret_leaves_its_field() {
    let mut b = state(BackupProtocol::WebDav, Some(2));
    let mut fx = Fx::none((1, 1));
    b.inputs[1] = chars(" me ");
    b.focus = Some(2);
    b.backup_remote_field_paste("pass word", &mut fx);
    match b.commit_backup_remote_field(&mut fx) {
        BackupCommit::StoreWebDavPassword { user, secret } => {
            assert_eq!((user.as_str(), secret.as_str()), ("me", "pass word"))
        },
        other => panic!("{other:?}"),
    }
    assert!(b.inputs[2].is_empty());
    b.backup_secret_stored(Ok(()));
    assert!(b.secret_set);

    let mut b = state(BackupProtocol::S3, Some(4));
    b.inputs[3] = chars("key");
    b.inputs[4] = chars("s");
    b.focus = Some(4);
    match b.commit_backup_remote_field(&mut fx) {
        BackupCommit::StoreS3Secret { access_key, secret } => {
            assert_eq!((access_key.as_str(), secret.as_str()), ("key", "s"))
        },
        other => panic!("{other:?}"),
    }
    // Nothing but white space is no secret.
    b.inputs[4] = chars("  ");
    b.focus = Some(4);
    assert!(matches!(b.commit_backup_remote_field(&mut fx), BackupCommit::Nothing));
    b.backup_secret_stored(Err("locked".to_string()));
    assert_eq!(says(&b), ("locked", true));
    assert!(b.status_remote);
    b.remote_failed("disk".to_string());
    assert_eq!(says(&b), ("disk", true));
}

#[test]
fn cancelled_field_shows_the_stored_value() {
    let mut b = state(BackupProtocol::WebDav, None);
    let mut fx = Fx::none((1, 1));
    b.focus = Some(1);
    b.inputs[1] = chars("typed");
    b.cancel_backup_remote_field("stored", &mut fx);
    assert_eq!((b.focus, b.inputs[1].clone()), (None, chars("stored")));
}

#[test]
fn remote_action_is_refused_without_a_reason_to_run() {
    let mut fx = Fx::none((1, 1));
    let mut confirm = None;
    let mut b = state(BackupProtocol::WebDav, None);
    b.selection = nothing_selected();
    b.start_backup_remote(true, Ok(()), UiLanguage::English, &mut confirm, &mut fx);
    assert_eq!(says(&b), ("Select at least one backup item", true));
    b.start_backup_remote(false, Err("no address".to_string()), UiLanguage::English, &mut confirm, &mut fx);
    assert_eq!(says(&b), ("no address", true));
    assert!(confirm.is_none());
    b.busy = true;
    b.start_backup_remote(false, Ok(()), UiLanguage::English, &mut confirm, &mut fx);
    assert!(confirm.is_none());
    b.busy = false;
    b.start_backup_remote(false, Ok(()), UiLanguage::English, &mut confirm, &mut fx);
    assert!(matches!(confirm, Some(NebulaConfirm::BackupPassphrase { restoring: true })));
    assert!(matches!(b.operation, Some(BackupOperation::RemotePull)));
}

#[test]
fn short_passphrase_keeps_the_card_open() {
    let mut fx = Fx::none((1, 1));
    let mut confirm = None;
    let mut b = state(BackupProtocol::WebDav, None);
    b.start_backup_remote(true, Ok(()), UiLanguage::English, &mut confirm, &mut fx);
    b.backup_passphrase_paste("seven77", &mut fx);
    let r = b.complete_backup_operation(Ok(()), UiLanguage::English, &mut confirm, &mut fx);
    assert!(r.is_none() && confirm.is_some() && b.operation.is_some());
    assert_eq!(
        says(&b),
        ("Backup operation failed: passphrase must be at least 8 characters", true)
    );
    assert!(b.passphrase.is_empty());
    b.backup_passphrase_paste("eight888", &mut fx);
    assert!(b.status.is_none());
    let r = b
        .complete_backup_operation(Ok(()), UiLanguage::English, &mut confirm, &mut fx)
        .expect("a request");
    assert!(r.upload && r.selection == b.selection);
    assert_eq!(r.passphrase, "eight888");
    assert!(confirm.is_none() && b.busy && b.passphrase.is_empty());
    assert_eq!(says(&b), ("Uploading backup…", false));
    b.backup_remote_done("done".to_string(), false, &mut fx);
    assert!(!b.busy);
}

#[test]
fn export_and_restore_end_with_a_message() {
    let mut fx = Fx::none((1, 1));
    let mut confirm = None;
    let mut b = state(BackupProtocol::Other, None);
    assert!(b.backup_export_ready(UiLanguage::English, &mut fx));
    assert!(b.local_backup().is_none());
    b.start_backup_export(None, &mut confirm, &mut fx);
    assert!(confirm.is_none());
    b.start_backup_export(Some("a.bak".to_string()), &mut confirm, &mut fx);
    assert!(matches!(confirm, Some(NebulaConfirm::BackupPassphrase { restoring: false })));
    b.backup_passphrase_push('x', &mut fx);
    match b.local_backup() {
        Some(LocalBackup::Export { path, passphrase, selection }) => {
            assert_eq!((path.as_str(), passphrase.as_str()), ("a.bak", "x"));
            assert_eq!(selection, b.selection);
        },
        other => panic!("{other:?}"),
    }
    b.complete_backup_operation(Err("disk full".to_string()), UiLanguage::English, &mut confirm, &mut fx);
    assert_eq!(says(&b), ("Backup operation failed: disk full", true));
    assert!(confirm.is_some() && b.passphrase.is_empty());
    b.complete_backup_operation(Ok(()), UiLanguage::English, &mut confirm, &mut fx);
    assert_eq!(says(&b), ("Backup exported", false));
    assert!(confirm.is_none() && b.operation.is_none());

    b.start_backup_restore(Some("a.bak".to_string()), &mut confirm, &mut fx);
    assert!(matches!(
        b.local_backup(),
        Some(LocalBackup::Restore { path, passphrase }) if path == "a.bak" && passphrase.is_empty()
    ));
    b.complete_backup_operation(Ok(()), UiLanguage::Chinese, &mut confirm, &mut fx);
    assert_eq!(says(&b), ("备份已恢复，重启后应用全部设置", false));
    b.selection = nothing_selected();
    assert!(!b.backup_export_ready(UiLanguage::Chinese, &mut fx));
    assert_eq!(says(&b), ("至少选择一项备份内容", true));
}

#[test]
fn remote_action_is_no_local_backup() {
    let mut b = state(BackupProtocol::WebDav, None);
    b.operation = Some(BackupOperation::RemotePush);
    assert!(b.local_backup().is_none());
}

#[test]
fn passphrase_is_edited_on_its_card() {
    let mut fx = Fx::none((1, 1));
    let mut b = state(BackupProtocol::Other, None);
    b.backup_passphrase_select_all(&mut fx);
    assert!(!b.passphrase_selected);
    b.backup_passphrase_push('a', &mut fx);
    b.backup_passphrase_push('\n', &mut fx);
    b.backup_passphrase_paste("b\tc", &mut fx);
    assert_eq!(b.passphrase, chars("abc"));
    b.backup_passphrase_backspace(&mut fx);
    assert_eq!(b.passphrase, chars("ab"));
    b.backup_passphrase_select_all(&mut fx);
    b.backup_passphrase_push('z', &mut fx);
    assert_eq!(b.passphrase, chars("z"));
    b.backup_passphrase_paste(&"x".repeat(400), &mut fx);
    assert_eq!(b.passphrase.len(), 256);
    b.backup_passphrase_push('y', &mut fx);
    assert_eq!(b.passphrase.len(), 256);
    b.backup_passphrase_select_all(&mut fx);
    b.backup_passphrase_backspace(&mut fx);
    assert!(b.passphrase.is_empty());
}

#[test]
fn leaving_the_backup_page_drops_what_waits() {
    let mut fx = Fx::none((1, 1));
    let mut confirm = None;
    let mut b = state(BackupProtocol::WebDav, None);
    b.start_backup_export(Some("a.bak".to_string()), &mut confirm, &mut fx);
    b.backup_passphrase_push('x', &mut fx);
    b.focus = Some(0);
    b.inputs[0] = chars(" v ");
    match b.leave_page(&mut confirm, &mut fx) {
        BackupCommit::SaveSlot { index: 0, value } => assert_eq!(value, "v"),
        other => panic!("{other:?}"),
    }
    assert!(confirm.is_none() && b.operation.is_none() && b.passphrase.is_empty());

    b.start_backup_export(Some("a.bak".to_string()), &mut confirm, &mut fx);
    b.cancel_backup_operation(&mut confirm, &mut fx);
    assert!(confirm.is_none() && b.operation.is_none());
}

#[test]
fn loading_a_destination_replaces_the_fields() {
    let mut b = state(BackupProtocol::WebDav, None);
    b.focus = Some(1);
    let target = BackupTarget { protocol: BackupProtocol::S3, field_count: 5, secret_field: Some(4) };
    b.load_backup_remote_state(target, &vec![Some("e".to_string()), None], true);
    assert_eq!(b.backup_protocol(), BackupProtocol::S3);
    assert!(b.secret_set && b.focus.is_none());
    assert_eq!((b.inputs.len(), &b.inputs[0]), (5, &chars("e")));
    assert!(b.inputs[1].is_empty() && b.inputs[4].is_empty());
}
