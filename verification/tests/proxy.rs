use nebula_display::color::Px;
use nebula_display::fields::TextField;
use nebula_display::fx::Fx;
use nebula_display::page::{NebulaSettingsSection, PageState, SettingsDropdown, TextDrag};
use nebula_display::proxy::{
    choice_for, proxy_hidden_chars, ManualProxyProtocol, ProxyChoice, ProxyMode, ProxyState,
    ProxyTestStatus, SystemProxySource,
};

fn state() -> ProxyState {
    ProxyState {
        mode: ProxyMode::Custom,
        choice: ProxyChoice::Manual,
        protocol: ManualProxyProtocol::Socks5,
        url: "socks5://h:1".to_string(),
        no_proxy: "localhost".to_string(),
        fields: (0..3).map(|_| TextField::empty()).collect(),
        focus: None,
        backup: (String::new(), String::new()),
        found: vec!["http://127.0.0.1:7890".to_string()],
        scanning: false,
        scan_request: false,
        test_seq: 3,
        test_request: None,
        test_status: ProxyTestStatus::Idle,
        system: None,
    }
}

fn page() -> PageState {
    PageState {
        open: true,
        special_tab: true,
        section: NebulaSettingsSection::Proxy,
        scroll: Px { bits: 0 },
        dropdown: Some(SettingsDropdown::Other(4)),
        text_drag: None,
        chrome_hover: 0,
        settings_hover: 0,
        settings_pressed: 0,
        message_close: false,
        message_close_hover: false,
    }
}

fn fx() -> Fx {
    Fx::none((1, 1))
}

fn chars(s: &str) -> Vec<char> {
    s.chars().collect()
}

#[test]
fn mode_change_drops_a_running_test() {
    let mut p = state();
    let mut pg = page();
    let mut f = fx();
    p.test_status = ProxyTestStatus::Running;
    p.set_ssh_proxy_mode(Some(ProxyMode::Custom), &mut pg, &mut f);
    assert!(pg.dropdown.is_none() && !f.persist);
    assert_eq!(p.test_status, ProxyTestStatus::Running);
    p.set_ssh_proxy_mode(Some(ProxyMode::System), &mut pg, &mut f);
    assert_eq!((p.mode, p.test_seq, p.test_status), (ProxyMode::System, 4, ProxyTestStatus::Idle));
    assert!(f.persist && f.requests.probe_system_proxy);
    assert_eq!(p.ssh_proxy_pane_state().found_count, 1);
}

#[test]
fn leaving_a_proxy_field_trims_it() {
    let mut p = state();
    let mut f = fx();
    p.url = " http://x ".to_string();
    p.no_proxy = " a, b ".to_string();
    p.focus = Some(0);
    p.commit_ssh_proxy_field("", &mut f);
    assert_eq!((p.url.as_str(), p.no_proxy.as_str(), p.focus), ("http://x", "a, b", None));
    p.choice = ProxyChoice::Command;
    p.focus = Some(2);
    p.commit_ssh_proxy_field("  nc %h ", &mut f);
    assert_eq!(p.url, "command:nc %h");
    p.focus = Some(2);
    p.commit_ssh_proxy_field("  ", &mut f);
    assert_eq!(p.url, "");
}

#[test]
fn proxy_test_answers_by_number() {
    let mut p = state();
    let mut f = fx();
    p.request_proxy_test("", &mut f);
    assert_eq!((p.test_seq, p.test_request), (4, Some(4)));
    p.request_proxy_test("", &mut f);
    assert_eq!(p.test_seq, 4);
    assert_eq!(p.take_proxy_test_request(), Some(4));
    assert_eq!(p.take_proxy_test_request(), None);
    p.proxy_test_done(3, 1, 10, &mut f);
    assert_eq!(p.test_status, ProxyTestStatus::Running);
    p.proxy_test_done(4, 1, 10, &mut f);
    assert_eq!(p.test_status, ProxyTestStatus::Complete { outcome: 1, elapsed_ms: 10 });
}

#[test]
fn picking_a_proxy_clears_what_another_kind_left() {
    let mut p = state();
    let mut f = fx();
    p.set_ssh_proxy_link_pick(0, &mut f);
    assert_eq!((p.choice, p.url.as_str()), (ProxyChoice::Detected(0), "http://127.0.0.1:7890"));
    p.protocol = ManualProxyProtocol::Other(2);
    p.set_ssh_proxy_link_pick(1, &mut f);
    assert_eq!((p.choice, p.url.as_str(), p.protocol), (ProxyChoice::Manual, "", ManualProxyProtocol::Socks5));
    p.set_ssh_proxy_link_pick(2, &mut f);
    assert_eq!(p.choice, ProxyChoice::Jump);
    p.set_ssh_proxy_link_pick(3, &mut f);
    assert_eq!(p.choice, ProxyChoice::Command);
    p.set_ssh_proxy_link_pick(4, &mut f);
    assert_eq!(p.choice, ProxyChoice::Command);
    let mut pg = page();
    p.set_ssh_proxy_jump_host(Some("bastion"), &mut pg, &mut f);
    assert_eq!(p.url, "jump:bastion");
    assert!(pg.dropdown.is_none());
}

#[test]
fn scan_fills_an_empty_custom_proxy() {
    let mut p = state();
    let mut f = fx();
    p.request_local_proxy_scan(&mut f);
    assert!(p.scanning && p.take_local_proxy_scan_request());
    assert!(!p.take_local_proxy_scan_request());
    p.local_proxy_scan_done(vec!["socks5://h:1".to_string()], false, false, &mut f);
    assert_eq!((p.choice, p.scanning), (ProxyChoice::Detected(0), false));
    assert!(!f.persist);
    p.url = " ".to_string();
    p.local_proxy_scan_done(vec!["http://a".to_string(), "http://b".to_string()], false, false, &mut f);
    assert_eq!((p.url.as_str(), p.choice), ("http://a", ProxyChoice::Detected(0)));
    assert!(f.persist);
    p.local_proxy_scan_done(Vec::new(), false, true, &mut f);
    assert_eq!(p.choice, ProxyChoice::Command);
    f = fx();
    p.look_for_proxies(&mut f);
    assert!(p.scanning && f.requests.probe_system_proxy);
}

#[test]
fn stored_address_tells_its_kind() {
    let found = vec!["http://a".to_string(), "http://b".to_string()];
    assert_eq!(choice_for("http://b", &found, true, true), ProxyChoice::Detected(1));
    assert_eq!(choice_for("jump:x", &found, true, false), ProxyChoice::Jump);
    assert_eq!(choice_for("command:x", &found, false, true), ProxyChoice::Command);
    assert_eq!(choice_for("http://c", &found, false, false), ProxyChoice::Manual);
}

#[test]
fn field_shows_its_end_unless_the_caret_is_further_left() {
    assert_eq!(proxy_hidden_chars(&chars("abcdef"), 4, 6), 2);
    assert_eq!(proxy_hidden_chars(&chars("abcdef"), 4, 1), 1);
    assert_eq!(proxy_hidden_chars(&chars("ab"), 4, 2), 0);
    assert_eq!(proxy_hidden_chars(&chars("a目录"), 3, 3), 2);
    let mut p = state();
    p.fields[0] = TextField::holding("abcdef");
    assert_eq!(p.ssh_proxy_hidden(0, 4), None);
    p.focus = Some(0);
    assert_eq!(p.ssh_proxy_hidden(0, 4), Some(2));
}

#[test]
fn escape_gives_the_proxy_back() {
    let mut p = state();
    let mut f = fx();
    p.focus_ssh_proxy_field(1, ("h:1", ""), "", &mut f);
    p.ssh_proxy_field_paste(", 10.*", &mut f);
    assert_eq!(p.no_proxy, "localhost, 10.*");
    assert!(f.persist && f.requests.refresh_ime);
    p.cancel_ssh_proxy_field(ManualProxyProtocol::Socks5, &mut f);
    assert_eq!((p.no_proxy.as_str(), p.url.as_str(), p.focus), ("localhost", "socks5://h:1", None));
}

#[test]
fn edits_follow_the_field() {
    let mut p = state();
    let mut f = fx();
    p.focus_ssh_proxy_field(0, ("h:1", ""), "", &mut f);
    let edit = p.ssh_proxy_field_push('2', &mut f).expect("an address");
    assert_eq!(edit.address, "h:12");
    p.set_manual_url("socks5://h:12".to_string());
    assert_eq!(p.url, "socks5://h:12");
    assert!(p.ssh_proxy_field_push(' ', &mut f).is_none());
    p.ssh_proxy_field_select_all(&mut f);
    assert_eq!(p.ssh_proxy_field_selected_text(), Some("h:12".to_string()));
    assert_eq!(p.ssh_proxy_field_backspace(&mut f).map(|e| e.address), Some(String::new()));
    p.focus_ssh_proxy_field(7, ("", "nc"), "", &mut f);
    assert_eq!(p.focus, Some(2));
    assert!(p.ssh_proxy_field_paste(" -x", &mut f).is_none());
    assert_eq!(p.url, "command:nc -x");
    p.ssh_proxy_field_jump(false, false, &mut f);
    p.ssh_proxy_field_delete_forward(&mut f);
    assert_eq!(p.url, "command:c -x");
    p.ssh_proxy_field_move(true, true, &mut f);
    assert_eq!(p.ssh_proxy_field_selected_text(), Some("c".to_string()));
    assert_eq!(p.test_status, ProxyTestStatus::Idle);
}

#[test]
fn long_paste_only_moves_the_caret() {
    let mut p = state();
    let mut f = fx();
    p.no_proxy = "abc".to_string();
    p.focus_ssh_proxy_field(1, ("", ""), "", &mut f);
    p.ssh_proxy_field_jump(false, false, &mut f);
    f = fx();
    assert!(p.ssh_proxy_field_paste(&"x".repeat(300), &mut f).is_none());
    assert_eq!((p.fields[1].text.clone(), p.fields[1].caret), (chars("abc"), 3));
    assert!(!f.persist);
    p.fields[1] = TextField::holding(&"y".repeat(256));
    p.ssh_proxy_field_push('z', &mut f);
    assert_eq!((p.fields[1].text.len(), p.fields[1].caret), (256, 256));
}

#[test]
fn protocol_change_keeps_the_rest() {
    let mut p = state();
    let mut pg = page();
    let mut f = fx();
    p.set_ssh_proxy_protocol(None, "x", "", &mut pg, &mut f);
    assert_eq!(p.url, "socks5://h:1");
    p.focus = Some(1);
    p.no_proxy = " n ".to_string();
    p.set_ssh_proxy_protocol(Some(ManualProxyProtocol::Other(1)), "http://h:1", "", &mut pg, &mut f);
    assert_eq!((p.url.as_str(), p.no_proxy.as_str()), ("http://h:1", "n"));
    assert_eq!((p.protocol, p.choice, p.focus), (ManualProxyProtocol::Other(1), ProxyChoice::Manual, None));
}

#[test]
fn proxy_field_drag_selects() {
    let mut p = state();
    let mut pg = page();
    let mut f = fx();
    p.no_proxy = "abcd".to_string();
    p.focus_ssh_proxy_field(1, ("", ""), "", &mut f);
    p.begin_ssh_proxy_drag(1, 1, false, &mut pg, &mut f);
    assert_eq!(pg.text_drag, Some(TextDrag::Proxy(1)));
    p.ssh_proxy_field_place(1, 3, true, &mut f);
    p.ssh_proxy_field_place(0, 0, true, &mut f);
    assert_eq!(p.ssh_proxy_field_selected_text(), Some("bc".to_string()));
    assert_eq!(p.ssh_proxy_cursor(1), (3, Some(1)));
    assert_eq!(p.ssh_proxy_cursor(9), p.ssh_proxy_cursor(2));
}

#[test]
fn drag_in_the_third_field_goes_on() {
    let mut p = state();
    let mut pg = page();
    let mut f = fx();
    p.focus_ssh_proxy_field(2, ("", "abcd"), "", &mut f);
    p.begin_ssh_proxy_drag(2, 1, false, &mut pg, &mut f);
    assert_eq!(pg.text_drag, Some(TextDrag::Proxy(2)));
    p.ssh_proxy_field_place(2, 3, true, &mut f);
    assert_eq!(p.ssh_proxy_cursor(2), (3, Some(1)));
    assert_eq!(p.ssh_proxy_field_selected_text(), Some("bc".to_string()));
}

#[test]
fn the_proxy_of_the_system_says_where_it_is_from() {
    let mut p = state();
    p.refresh_system_proxy_probe(Some(("http://s:1".to_string(), SystemProxySource::Registry)));
    assert_eq!(p.system, Some(("http://s:1".to_string(), true)));
    p.refresh_system_proxy_probe(Some(("http://e:1".to_string(), SystemProxySource::Environment)));
    assert_eq!(p.system, Some(("http://e:1".to_string(), false)));
    p.refresh_system_proxy_probe(None);
    assert_eq!(p.system, None);
}

#[test]
fn only_a_manual_proxy_has_an_address() {
    let mut p = state();
    assert_eq!(p.manual_address("h:1"), "h:1");
    p.choice = ProxyChoice::Jump;
    assert_eq!(p.manual_address("h:1"), "");
}
