use nebula_display::words::{
    eq_ignore_ascii_case, has_background_image, nebula_settings_value,
    replays_untrusted_terminal_output, restore_session_enabled, tray_enabled, trim, trim_quotes,
};

#[test]
fn log_replay_commands_do_not_receive_terminal_query_answers() {
    for command in [
        "docker logs app",
        "docker compose logs -f api",
        "podman logs app",
        "kubectl logs pod/api",
        "journalctl -f -u nebula",
    ] {
        assert!(replays_untrusted_terminal_output(command), "{command}");
    }

    for command in ["docker run app", "kubectl exec pod -- sh", "cargo test", "nvim"] {
        assert!(!replays_untrusted_terminal_output(command), "{command}");
    }
}

#[test]
fn command_words_ignore_quotes_and_case() {
    assert!(replays_untrusted_terminal_output("  \"Docker\"\tLOGS 'x'"));
    assert!(!replays_untrusted_terminal_output("docker compose up"));
    assert!(!replays_untrusted_terminal_output(""));
}

#[test]
fn settings_lines_are_read_by_key() {
    let data = "# note\nTheme = dark \r\n theme=light\nempty=\nbroken";
    assert_eq!(nebula_settings_value(data, "theme"), Some("dark".to_string()));
    assert_eq!(nebula_settings_value(data, "EMPTY"), Some(String::new()));
    assert_eq!(nebula_settings_value(data, "broken"), None);
    assert_eq!(nebula_settings_value("a=b=c", "a"), Some("b=c".to_string()));
}

#[test]
fn switches_are_on_unless_switched_off() {
    assert!(restore_session_enabled(None));
    assert!(restore_session_enabled(Some("tray=0")));
    assert!(!restore_session_enabled(Some("restore_session = OFF")));
    assert!(!restore_session_enabled(Some("restore_session=false")));
    assert!(restore_session_enabled(Some("restore_session=maybe")));
    assert!(!tray_enabled(Some("x=1\ntray = no")));
    assert!(tray_enabled(Some("tray=1")));
}

#[test]
fn background_image_needs_a_path() {
    assert!(!has_background_image(None));
    assert!(!has_background_image(Some("  ")));
    assert!(!has_background_image(Some(" \"\" ")));
    assert!(has_background_image(Some("\"C:\\x.png\"")));
}

#[test]
fn trimming_and_comparing() {
    assert_eq!(trim("\u{3000} a b\u{a0}\n"), "a b");
    assert_eq!(trim_quotes("'\"x'"), "x");
    assert!(eq_ignore_ascii_case("AbC", "aBc"));
    assert!(!eq_ignore_ascii_case("ä", "Ä"));
}
