use nebula_display::fx::Fx;
use nebula_display::hosts::{remove_ssh_host_from_lists, restore_ssh_host_to_lists, HostState};
use nebula_display::modal::NebulaConfirm;

fn list(hosts: &[&str]) -> Vec<String> {
    hosts.iter().map(|h| h.to_string()).collect()
}

fn state(saved: &[&str], pinned: &[&str], hidden: &[&str], listed: &[&str]) -> HostState {
    HostState {
        saved: list(saved),
        pinned: list(pinned),
        hidden: list(hidden),
        listed: list(listed),
        undo: None,
        undo_bar: false,
        undo_hover: false,
        expired_credentials: Vec::new(),
    }
}

#[test]
fn ssh_delete_undo_restores_saved_and_pinned_order() {
    let mut saved = vec!["alpha".to_string(), "target".to_string(), "omega".to_string()];
    let mut pinned = vec!["target".to_string(), "alpha".to_string()];
    let mut hidden = vec!["already-hidden".to_string()];

    let (saved_index, pinned_index, was_hidden) =
        remove_ssh_host_from_lists("target", false, &mut saved, &mut pinned, &mut hidden);
    assert_eq!((saved_index, pinned_index, was_hidden), (Some(1), Some(0), false));
    assert_eq!(saved, ["alpha", "omega"]);
    assert_eq!(pinned, ["alpha"]);
    assert_eq!(hidden, ["already-hidden"]);

    restore_ssh_host_to_lists(
        "target",
        saved_index,
        pinned_index,
        was_hidden,
        &mut saved,
        &mut pinned,
        &mut hidden,
    );
    assert_eq!(saved, ["alpha", "target", "omega"]);
    assert_eq!(pinned, ["target", "alpha"]);
    assert_eq!(hidden, ["already-hidden"]);
}

#[test]
fn ssh_config_only_hide_is_fully_reversible() {
    let mut saved = Vec::new();
    let mut pinned = Vec::new();
    let mut hidden = Vec::new();

    let (saved_index, pinned_index, was_hidden) =
        remove_ssh_host_from_lists("config-alias", true, &mut saved, &mut pinned, &mut hidden);
    assert_eq!((saved_index, pinned_index, was_hidden), (None, None, false));
    assert_eq!(hidden, ["config-alias"]);

    restore_ssh_host_to_lists(
        "config-alias",
        saved_index,
        pinned_index,
        was_hidden,
        &mut saved,
        &mut pinned,
        &mut hidden,
    );
    assert!(saved.is_empty());
    assert!(pinned.is_empty());
    assert!(hidden.is_empty());
}

#[test]
fn ssh_delete_of_a_config_backed_saved_host_also_hides_the_alias() {
    let mut saved = vec!["dual".to_string()];
    let mut pinned = Vec::new();
    let mut hidden = Vec::new();

    let (saved_index, pinned_index, was_hidden) =
        remove_ssh_host_from_lists("dual", true, &mut saved, &mut pinned, &mut hidden);
    assert_eq!((saved_index, pinned_index, was_hidden), (Some(0), None, false));
    assert!(saved.is_empty());
    assert_eq!(hidden, ["dual"]);

    restore_ssh_host_to_lists(
        "dual",
        saved_index,
        pinned_index,
        was_hidden,
        &mut saved,
        &mut pinned,
        &mut hidden,
    );
    assert_eq!(saved, ["dual"]);
    assert!(hidden.is_empty());
}

#[test]
fn deleting_asks_first() {
    let h = state(&[], &[], &[], &["box"]);
    let mut confirm = None;
    let mut fx = Fx::none((1, 1));
    h.request_delete_ssh_host(1, false, &mut confirm, &mut fx);
    assert!(confirm.is_none() && !fx.redraw);
    h.request_delete_ssh_host(0, true, &mut confirm, &mut fx);
    assert!(matches!(confirm, Some(NebulaConfirm::DeleteSsh { ref host, from_config: true }) if host == "box"));
    assert!(fx.redraw && fx.update.dirty && !fx.persist);
}

#[test]
fn deletion_can_be_undone_for_eight_seconds() {
    let mut h = state(&["a", "b"], &["b"], &[], &["b", "a"]);
    let mut fx = Fx::none((1, 1));
    assert!(!h.confirm_delete_ssh_host("c", false, 0, &mut fx));
    assert!(!fx.persist);
    assert!(h.confirm_delete_ssh_host("b", false, 100, &mut fx));
    assert!(fx.persist && fx.merge_hosts && fx.redraw);
    assert_eq!(h.saved, ["a"]);
    assert!(h.pinned.is_empty());
    assert!(h.ssh_delete_undo_available(8099));
    assert!(!h.ssh_delete_undo_available(8100));
    let bar = h.draw_ssh_delete_undo(200, "b", &mut fx).expect("a bar");
    assert_eq!((bar.message.as_str(), bar.hint, bar.action), ("已移除 b", "Ctrl+Z", "撤销"));
    assert_eq!((bar.content_cols, bar.hovered), (8 + 6 + 2, false));
    assert!(h.ssh_delete_undo_hit(200, true));
    assert!(!h.ssh_delete_undo_hit(200, false));
    assert!(h.undo_delete_ssh_host(8099, &mut fx));
    assert_eq!(h.saved, ["a", "b"]);
    assert_eq!(h.pinned, ["b"]);
    assert!(h.expired_credentials.is_empty());
}

#[test]
fn late_undo_drops_the_record_and_the_password() {
    let mut h = state(&["a"], &[], &[], &["a"]);
    let mut fx = Fx::none((1, 1));
    h.confirm_delete_ssh_host("a", true, 0, &mut fx);
    assert_eq!(h.hidden, ["a"]);
    assert!(!h.undo_delete_ssh_host(9000, &mut fx));
    assert!(h.undo.is_none());
    assert_eq!(h.expired_credentials, ["a"]);
    assert!(h.saved.is_empty());
}

#[test]
fn undo_bar_expires_when_it_is_drawn_too_late() {
    let mut h = state(&["a"], &[], &[], &["a"]);
    let mut fx = Fx::none((1, 1));
    h.confirm_delete_ssh_host("a", false, 0, &mut fx);
    h.draw_ssh_delete_undo(10, "a", &mut fx);
    h.set_ssh_delete_undo_hover(true, &mut fx);
    assert!(h.undo_bar && h.undo_hover);
    assert!(h.draw_ssh_delete_undo(10, "a", &mut fx).is_some_and(|bar| bar.hovered));
    assert!(h.draw_ssh_delete_undo(8000, "a", &mut fx).is_none());
    assert!(!h.undo_bar && !h.undo_hover && h.undo.is_none());
    assert_eq!(h.expired_credentials, ["a"]);
}

#[test]
fn second_deletion_ends_the_first_grace_period() {
    let mut h = state(&["a", "b"], &[], &[], &["a", "b"]);
    let mut fx = Fx::none((1, 1));
    h.confirm_delete_ssh_host("a", false, 0, &mut fx);
    h.confirm_delete_ssh_host("b", false, 1, &mut fx);
    assert_eq!(h.expired_credentials, ["a"]);
    h.expire_ssh_delete_undo(&mut fx);
    assert_eq!(h.expired_credentials, ["a", "b"]);
}

#[test]
fn hidden_host_comes_back() {
    let mut fx = Fx::none((1, 1));
    let mut h = state(&["a"], &[], &["old"], &["a"]);
    h.restore_hidden_ssh_host(3, false, 0, &mut fx);
    assert_eq!(h.hidden_ssh_host_count(), 1);
    h.restore_hidden_ssh_host(0, false, 0, &mut fx);
    assert_eq!(h.saved, ["old", "a"]);
    assert_eq!(h.hidden_ssh_host_count(), 0);
    // One from the configuration is not saved.
    let mut h = state(&["a"], &[], &["alias"], &["a"]);
    h.restore_hidden_ssh_host(0, true, 0, &mut fx);
    assert_eq!(h.saved, ["a"]);
    // A deletion that can still be undone is undone.
    let mut h = state(&["a", "b"], &[], &[], &["a", "b"]);
    h.confirm_delete_ssh_host("b", true, 0, &mut fx);
    h.restore_hidden_ssh_host(0, true, 50, &mut fx);
    assert_eq!(h.saved, ["a", "b"]);
    assert!(h.undo.is_none() && h.hidden.is_empty());
}

#[test]
fn connected_host_is_remembered_first() {
    let mut fx = Fx::none((1, 1));
    let mut h = state(&["a", "b"], &["p"], &["b"], &["p", "a"]);
    h.nebula_save_ssh_host("b", &mut fx);
    assert_eq!(h.saved, ["b", "a"]);
    assert!(h.hidden.is_empty());
    // It is shown below the pinned block.
    assert_eq!(h.listed, ["p", "b", "a"]);
    assert!(fx.persist && fx.update.dirty && !fx.redraw);
    h.nebula_save_ssh_host("", &mut fx);
    assert_eq!(h.saved.len(), 2);
}

#[test]
fn at_most_twenty_hosts_are_remembered() {
    let mut fx = Fx::none((1, 1));
    let mut h = state(&[], &[], &[], &[]);
    for i in 0..25 {
        h.nebula_save_ssh_host(&format!("h{i}"), &mut fx);
    }
    assert_eq!(h.saved.len(), 20);
    assert_eq!(h.saved[0], "h24");
    assert_eq!(h.saved[19], "h5");
    assert_eq!(h.ssh_host_count(), 25);
}

#[test]
fn import_counts_the_shown_hosts() {
    let mut fx = Fx::none((1, 1));
    fx.merge_hosts = true;
    let mut h = state(&[], &[], &["z"], &[]);
    let toast = h.import_ssh_config(list(&["x", "y"]), &list(&["x", "z", "y"]), &mut fx);
    assert_eq!(toast, "已导入 2 个 SSH 主机，立即可用");
    assert_eq!(h.listed, ["x", "y"]);
    assert!(!fx.merge_hosts);
}
