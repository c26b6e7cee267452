use nebula_display::backup::{BackupProtocol, BackupSelection, BackupState, BackupTarget};
use nebula_display::lang::UiLanguage;
use nebula_display::modal::{
    ai_fix_command_budget, ai_fix_parts, confirm_body_lines, confirm_head, draw_ai_fix_bar,
    draw_confirm_modal, masked_passphrase, undo_host_budget, undo_message, AiFixState,
    NebulaConfirm, CONFIRM_KEY, DISMISS_KEY, LABEL_MAX,
};

#[test]
fn missing_font_notice_can_be_dismissed() {
    assert!(NebulaConfirm::InstallRequiredFont { directory: "fonts".to_string() }.can_dismiss());
}

#[test]
fn cards_name_what_is_deleted() {
    let host = NebulaConfirm::DeleteSsh { host: "box".to_string(), from_config: true };
    assert_eq!(host.label_source(Some("x")).as_deref(), Some("box"));
    let entry = NebulaConfirm::DeleteSftp { name: "dir".to_string(), is_dir: true };
    assert_eq!(entry.label_source(None).as_deref(), Some("dir"));
    let path = NebulaConfirm::DeleteFileTreePath { path: "/a/b".to_string(), is_dir: false };
    assert_eq!(path.label_source(Some("b")).as_deref(), Some("b"));
    assert_eq!(path.label_source(None).as_deref(), Some("/a/b"));
    assert_eq!(NebulaConfirm::Paste { lines: 2 }.label_source(Some("b")), None);
    assert_eq!(LABEL_MAX, 28);
}

#[test]
fn cards_say_what_they_ask() {
    let t = NebulaConfirm::Paste { lines: 12 }.text("", &None);
    assert_eq!(t.title, "粘贴 12 行文本？");
    assert_eq!(t.body, "多行粘贴会被 shell 逐行执行，请确认来源可信。");
    assert!(!t.danger);

    let t = NebulaConfirm::DeleteSsh { host: "box".to_string(), from_config: true }.text("box", &None);
    assert_eq!(t.title, "隐藏 SSH 主机 box？");
    assert!(t.danger);

    let t = NebulaConfirm::DeleteSsh { host: "box".to_string(), from_config: false }.text("box", &None);
    assert_eq!(t.title, "删除 SSH 主机 box？");

    let t = NebulaConfirm::CloseTab { process: "vim".to_string() }.text("", &None);
    assert_eq!(t.body, "vim 仍在运行，关闭会中止它。");
    assert!(t.danger);
}

#[test]
fn passphrase_card_adds_the_error() {
    let card = NebulaConfirm::BackupPassphrase { restoring: true };
    let failed = Some(("口令错误".to_string(), true));
    let fine = Some(("完成".to_string(), false));
    assert_eq!(
        card.text("", &failed).body,
        "输入导出时使用的口令；认证通过后才会写入任何文件。 口令错误"
    );
    assert_eq!(card.text("", &fine).body, "输入导出时使用的口令；认证通过后才会写入任何文件。");
    assert_eq!(
        NebulaConfirm::EnablePanelResize.text("", &failed).title,
        "开启侧栏拖拽调节？"
    );
}

#[test]
fn body_lines_have_at_least_eight_columns() {
    assert_eq!(confirm_body_lines("12345678 90", 3), vec!["12345678", "90"]);
    assert_eq!(confirm_body_lines("12345678 90", 11), vec!["12345678 90"]);
}

#[test]
fn passphrase_is_never_shown() {
    assert_eq!(masked_passphrase("", 10, UiLanguage::English), ("Passphrase".to_string(), true));
    assert_eq!(masked_passphrase("", 10, UiLanguage::Chinese), ("输入口令".to_string(), true));
    assert_eq!(masked_passphrase("秘密s", 10, UiLanguage::English), ("•••".to_string(), false));
    assert_eq!(masked_passphrase("secret", 4, UiLanguage::English), ("…•••".to_string(), false));
    assert_eq!(masked_passphrase("secret", 0, UiLanguage::English), ("…".to_string(), false));
}

#[test]
fn suggestion_bar_parts() {
    assert!(ai_fix_parts(true, &Some(AiFixState::Pending), UiLanguage::English).is_none());
    assert!(ai_fix_parts(false, &None, UiLanguage::English).is_none());
    let p = ai_fix_parts(false, &Some(AiFixState::Pending), UiLanguage::English).expect("parts");
    assert_eq!((p.icon, p.command.as_str(), p.hint.as_str()), ('✦', "Analyzing failure…", ""));
    let ready = Some(AiFixState::Ready {
        command: "rm -r x".to_string(),
        explain: "why".to_string(),
        danger: true,
    });
    let p = ai_fix_parts(false, &ready, UiLanguage::Chinese).expect("parts");
    assert_eq!((p.icon, p.danger, p.command.as_str()), ('⚠', true, "rm -r x"));
    assert_eq!(p.hint, "Ctrl+. 贴入 · Esc 关闭");
}

#[test]
fn suggestion_bar_drops_the_explanation_first() {
    assert_eq!(ai_fix_command_budget(3), (12, 12));
    assert_eq!(ai_fix_command_budget(50), (50, 50));
    assert_eq!(ai_fix_command_budget(200), (200, 96));
    // 40 columns less the command and the gap leave 34; "because" and its margin take 15.
    let bar = draw_ai_fix_bar(40, "cmd", "because", "hint");
    assert_eq!(bar.explain, "because");
    assert_eq!(bar.explain_label, "— because");
    assert_eq!(bar.content_cols, 2 + 3 + 3 + 7 + 2 + 4);
    let bar = draw_ai_fix_bar(20, "cmd", "because", "");
    assert_eq!((bar.explain.as_str(), bar.explain_label.as_str()), ("", ""));
    assert_eq!(bar.content_cols, 5);
}

#[test]
fn undo_bar_text_and_width() {
    assert_eq!(undo_host_budget(10), 8);
    assert_eq!(undo_host_budget(28), 8);
    assert_eq!(undo_host_budget(40), 20);
    assert_eq!(undo_host_budget(90), 28);
    assert_eq!(undo_message("box", false), ("已移除 box".to_string(), 10 + 6 + 2));
    assert_eq!(undo_message("box", true).0, "已隐藏 box（SSH config 未修改）");
}

fn backup() -> BackupState {
    BackupState::fresh(
        BackupSelection {
            appearance: true,
            config: false,
            ssh: false,
            sync: false,
            assistant: false,
            session: false,
            directory_history: false,
            command_history: false,
            fonts: false,
        },
        BackupTarget { protocol: BackupProtocol::Other, field_count: 0, secret_field: None },
    )
}

#[test]
fn card_is_drawn_with_its_buttons() {
    let b = backup();
    assert!(draw_confirm_modal(&None, "", &b, UiLanguage::English, 40, 10).is_none());
    let close = Some(NebulaConfirm::ClosePane { process: "vim".to_string() });
    let p = draw_confirm_modal(&close, "", &b, UiLanguage::English, 4, 10).expect("a card");
    assert_eq!((p.primary_label.as_str(), p.cancel_label.as_str()), ("Yes", "No"));
    assert_eq!((CONFIRM_KEY, DISMISS_KEY), ("Enter", "Esc"));
    assert_eq!(p.lines, vec!["vim 仍在", "运行，关", "闭会中止", "它。"]);
    assert!(p.danger && p.field.is_none());
    let h = confirm_head(&p.title, UiLanguage::Chinese);
    assert_eq!((h.title_cols, h.primary_cols, h.cancel_cols), (12, 2 + 5, 2 + 3));
}

#[test]
fn passphrase_card_has_a_field() {
    let mut b = backup();
    let ask = Some(NebulaConfirm::BackupPassphrase { restoring: false });
    let p = draw_confirm_modal(&ask, "", &b, UiLanguage::English, 200, 10).expect("a card");
    let f = p.field.expect("a field");
    assert_eq!((f.shown.as_str(), f.placeholder, f.selected_cols), ("Passphrase", true, None));
    b.passphrase = "abc".chars().collect();
    b.passphrase_selected = true;
    b.status = Some(("太短".to_string(), true));
    let p = draw_confirm_modal(&ask, "", &b, UiLanguage::English, 200, 2).expect("a card");
    let f = p.field.expect("a field");
    assert_eq!((f.shown.as_str(), f.placeholder, f.selected_cols), ("…•", false, Some(3)));
    assert_eq!(p.lines, vec!["口令至少 8 个字符。Nebula 不会保存口令，丢失后无法恢复此备份。 太短"]);
}
