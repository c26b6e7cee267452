use nebula_display::config::{
    deserialize_bindings, merge_bindings, AlphabetError, BindingKey, HintAction, HintBinding,
    HintContent, HintEntry, Hints, HintsAlphabet, Key, KeyLocation, LazyRegexVariant, LazyRegexes,
    ModeWrapper, ModsWrapper, Platform, Profile, Program, ShellIntegration, StringVisitor, UiConfig,
    PATH_REGEX, SHIFT_CONTROL, URL_REGEX,
};
use winit::keyboard::ModifiersState;

fn profile(shell_id: Option<&str>, id: Option<&str>) -> Profile {
    Profile {
        name: "n".to_string(),
        command: "cmd".to_string(),
        args: vec!["-x".to_string()],
        cwd: None,
        shell_id: shell_id.map(|s| s.to_string()),
        terminal_profile_id: id.map(|s| s.to_string()),
    }
}

fn entry(key: &str, pattern: Option<Option<&str>>, flag: Option<bool>) -> HintEntry {
    HintEntry {
        key: key.to_string(),
        pattern: pattern.map(|p| p.map(|s| s.to_string())),
        flag,
    }
}

#[test]
fn programs_with_and_without_arguments() {
    let just = Program::Just("sh".to_string());
    assert_eq!((just.program(), just.args().len()), ("sh", 0));
    let with = Program::WithArgs { program: "sh".to_string(), args: vec!["-l".to_string()] };
    assert_eq!((with.program(), with.args()), ("sh", vec!["-l".to_string()]));
    assert_eq!(with.to_shell().args, ["-l"]);
}

#[test]
fn imported_profiles_have_a_settings_key() {
    assert_eq!(profile(Some("bash"), Some("a|b")).settings_id(), Some("profile:bash|a|b".to_string()));
    assert_eq!(profile(Some("bash"), None).settings_id(), None);
    assert_eq!(profile(None, Some("x")).settings_id(), None);
    assert_ne!(
        profile(Some("bash"), Some("a")).settings_id(),
        profile(Some("pwsh"), Some("a")).settings_id()
    );
}

#[test]
fn shells_get_their_integration() {
    assert_eq!(profile(Some("pwsh"), None).integration(true), ShellIntegration::PowerShell);
    assert_eq!(profile(Some("powershell"), None).integration(true), ShellIntegration::PowerShell);
    assert_eq!(profile(Some("git-bash"), None).integration(true), ShellIntegration::Bash);
    assert_eq!(profile(Some("bash"), None).integration(false), ShellIntegration::Plain);
    assert_eq!(profile(Some("fish"), None).integration(true), ShellIntegration::Plain);
    assert_eq!(profile(None, None).shell().program, "cmd");
}

#[test]
fn alphabet_needs_two_narrow_characters() {
    assert_eq!(HintsAlphabet::parse("ab".to_string()).map(|a| a.characters).ok(), Some("ab".to_string()));
    assert!(matches!(HintsAlphabet::parse("a".to_string()), Err(AlphabetError::TooShort)));
    assert!(matches!(HintsAlphabet::parse(String::new()), Err(AlphabetError::TooShort)));
    assert!(matches!(HintsAlphabet::parse("目".to_string()), Err(AlphabetError::Width)));
    assert!(matches!(HintsAlphabet::parse("ab\n".to_string()), Err(AlphabetError::Width)));
    assert_eq!(AlphabetError::Width.message(), "characters must be of width 1");
    assert_eq!(AlphabetError::TooShort.message(), "must include at last 2 characters");
    assert_eq!(HintsAlphabet::default().characters, "jfkdls;ahgurieowpq");
}

#[test]
fn default_hints_open_links_and_paths() {
    let mut h = Hints::default_for(Platform::Unix);
    assert_eq!(h.alphabet(), "jfkdls;ahgurieowpq");
    assert_eq!(h.enabled[0].content.regex.as_deref(), Some(URL_REGEX));
    assert_eq!(h.enabled[1].content.regex.as_deref(), Some(PATH_REGEX));
    match &h.enabled[0].action {
        HintAction::Command(p) => assert_eq!((p.program(), p.args().len()), ("xdg-open", 0)),
        other => panic!("{other:?}"),
    }
    let keys = h.enabled[0].binding.as_mut().expect("a binding");
    let binding = keys.key_binding(4);
    assert_eq!((binding.mods, binding.hint), (SHIFT_CONTROL, 4));
    let BindingKey::Keycode { key, location } = &binding.trigger;
    assert!(matches!(key, Key::Character(k) if k == "o"));
    assert_eq!(*location, KeyLocation::Standard);
    assert!(h.enabled[1].binding.is_none());
    match &Hints::default_for(Platform::Windows).enabled[1].action {
        HintAction::Command(p) => assert_eq!((p.program(), p.args().len()), ("cmd", 3)),
        other => panic!("{other:?}"),
    }
    match &Hints::default_for(Platform::MacOs).enabled[1].action {
        HintAction::Command(p) => assert_eq!(p.program(), "open"),
        other => panic!("{other:?}"),
    }
}

#[test]
fn hint_must_look_for_something() {
    let c = HintContent::from_entries(&vec![
        entry("regex", Some(Some("a")), None),
        entry("other", Some(Some("z")), Some(true)),
        entry("regex", None, None),
    ])
    .expect("content");
    assert_eq!((c.regex.as_deref(), c.hyperlinks), (Some("a"), false));
    let c = HintContent::from_entries(&vec![entry("hyperlinks", None, Some(true))]).expect("content");
    assert!(c.regex.is_none() && c.hyperlinks);
    let refused = HintContent::from_entries(&vec![
        entry("regex", Some(Some("a")), None),
        entry("regex", Some(None), None),
        entry("hyperlinks", None, Some(false)),
    ]);
    assert_eq!(
        refused.err(),
        Some("Config error: At least one of the hint's regex or hint's hyperlinks must be set")
    );
    assert_eq!(HintContent::new(None, true).hyperlinks, true);
}

#[test]
fn pattern_is_compiled_once() {
    let mut lazy: LazyRegexVariant<usize> = LazyRegexVariant::Pattern("abc".to_string());
    let other: LazyRegexVariant<usize> = LazyRegexVariant::Pattern("abc".to_string());
    assert!(lazy.same_pattern(&other));
    assert!(lazy.compiled(|p| Some(p.len())));
    assert!(matches!(lazy, LazyRegexVariant::Compiled(_, ref n) if **n == 3));
    assert!(lazy.compiled(|_| None));
    assert_eq!(lazy.pattern(), "abc");
    assert!(!lazy.same_pattern(&other));
    let mut bad: LazyRegexVariant<usize> = LazyRegexVariant::Pattern("(".to_string());
    assert!(!bad.compiled(|_| None));
    assert!(!bad.compiled(|_| Some(1)));
    assert_eq!(bad.pattern(), "(");
}

#[test]
fn user_bindings_replace_matching_defaults() {
    let merged = merge_bindings(vec![("k", 1)], vec![("j", 0), ("k", 0), ("l", 0)], |a, b| a.0 == b.0);
    assert_eq!(merged, vec![("k", 1), ("j", 0), ("l", 0)]);
}

fn config() -> UiConfig {
    UiConfig {
        semantic_escape_chars: ",│".to_string(),
        scrolling_history: 500,
        vi_mode_cursor_style: Some((1, true)),
        cursor_style: (2, false),
        osc52: 3,
        terminal_shell: None,
        general_working_directory: Some("/general".to_string()),
        general_live_config_reload: true,
        general_ipc_socket: true,
        shell: Some(Program::Just("old".to_string())),
        working_directory: None,
        live_config_reload: None,
        ipc_socket: Some(false),
    }
}

#[test]
fn texts_of_the_configuration_are_lowered() {
    assert_eq!(StringVisitor.visit_str("FullScreen ÄÖ"), "fullscreen äö");
    assert_eq!(StringVisitor.visit_str(""), "");
}

#[test]
fn older_options_still_count() {
    let mut c = config();
    assert_eq!(c.pty_config().shell.map(|s| s.program), Some("old".to_string()));
    assert_eq!(c.pty_config().working_directory, Some("/general".to_string()));
    c.terminal_shell = Some(Program::Just("new".to_string()));
    c.working_directory = Some("/older".to_string());
    assert_eq!(c.pty_config().shell.map(|s| s.program), Some("new".to_string()));
    assert_eq!(c.pty_config().working_directory, Some("/older".to_string()));
    assert!(!c.pty_config().drain_on_exit);
    assert!(c.live_config_reload());
    assert!(!c.ipc_socket());
}

#[test]
fn terminal_options_follow_the_configuration() {
    let t = config().term_options(None);
    assert_eq!((t.scrolling_history, t.osc52), (500, 3));
    assert_eq!((t.vi_mode_cursor_style, t.default_cursor_style), (Some((1, true)), (2, false)));
    assert!(t.kitty_keyboard && !t.suppress_bringup_da1 && !t.conpty_resize);
    let t = config().term_options(Some(false));
    assert!(!t.suppress_bringup_da1 && t.conpty_resize);
    assert!(config().term_options(Some(true)).suppress_bringup_da1);
}

#[test]
fn first_hint_keeps_the_key_binding() {
    let mut keys = HintBinding {
        key: BindingKey::Keycode { key: Key::Named(7), location: KeyLocation::Other(1) },
        mods: ModsWrapper { bits: 3 },
        mode: ModeWrapper { mode: 1, not_mode: 2 },
        cache: None,
    };
    let first = keys.key_binding(4);
    assert_eq!((first.mods, first.mode, first.notmode, first.hint), (3, 1, 2, 4));
    let second = keys.key_binding(9);
    assert_eq!(format!("{second:?}"), format!("{first:?}"));
}

#[test]
fn copies_of_a_pattern_stay_equal() {
    let mut table: LazyRegexes<usize> = LazyRegexes::new();
    let a = table.add_pattern("x".to_string());
    let b = table.add_pattern("x".to_string());
    let c = table.add_pattern("y".to_string());
    let copy = a;
    assert!(table.eq(a, b) && table.eq(a, copy) && !table.eq(a, c));
    *table.with_compiled(a, |p| Some(p.len())).expect("a compiled form") += 4;
    assert!(table.eq(a, copy) && !table.eq(a, b));
    assert_eq!(table.with_compiled(copy, |_| None).copied(), Some(5));
    assert!(table.with_compiled(c, |_| None).is_none());
    assert!(table.with_compiled(c, |_| Some(1)).is_none());
    assert!(table.eq(c, c));
}

#[test]
fn unreadable_bindings_are_skipped() {
    let values = vec![Some(("k", 1)), None, Some(("x", 1))];
    let merged = deserialize_bindings(values, vec![("j", 0), ("k", 0)], |a, b| a.0 == b.0);
    assert_eq!(merged, [("k", 1), ("x", 1), ("j", 0)]);
}

#[test]
fn modifier_bits_are_those_of_the_window_system() {
    assert_eq!(SHIFT_CONTROL, (ModifiersState::SHIFT | ModifiersState::CONTROL).bits());
    assert_eq!(ModifiersState::empty().bits(), 0);
}
