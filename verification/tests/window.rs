use nebula_display::boot::{BootInput, StartupAction, StartupMode};
use nebula_display::backup::{BackupProtocol, BackupSelection, BackupTarget};
use nebula_display::color::{Px, Rgb};
use nebula_display::config::Platform;
use nebula_display::display::{Display, ImeTarget, ReloadInput, StoredBackup, StoredSync};
use nebula_display::fx::Fx;
use nebula_display::hints::{GridPoint, ViewPoint};
use nebula_display::keymap::{KeymapRow, Keybind};
use nebula_display::lang::UiLanguage;
use nebula_display::modal::NebulaConfirm;
use nebula_display::page::{NebulaSettingsSection, PageState, SettingsDropdown, TextDrag};
use nebula_display::pane::{
    compose_cells, draw_powerline_icons, prune_images, CellLines, ClickRange, CompletionStep, InlineImage, PaneCell,
    PaneInput, PowerlineIconKind, scrollbar_lines_above, scrollbar_target_offset,
    NEBULA_FOLDER_ICON_MARKER,
};
use nebula_display::prefs::{Choices, Switches};
use nebula_display::providers::AiProvider;
use nebula_display::proxy::{ManualProxyProtocol, ProxyChoice, ProxyMode};
use nebula_display::settings::{
    HostSettings, KeySettings, LookSettings, NebulaRuntimeSettings, PanelSettings, ProxyReading,
    ProxySettings, ShellSettings, ThemeSettings,
};
use nebula_display::sync::SyncCommit;
use nebula_display::theme::{NebulaTheme, SystemTheme, ThemePreference};
use nebula_display::update::Viewport;
use nebula_display::view::{HostMark, ShellNames, ViewInput};

const INK: Rgb = Rgb { r: 9, g: 9, b: 9 };
const LINE: Rgb = Rgb { r: 1, g: 1, b: 1 };

fn lines(underline: bool, dashed: bool, strikeout: bool) -> CellLines {
    CellLines {
        underline,
        double_underline: false,
        undercurl: false,
        dotted_underline: false,
        dashed_underline: dashed,
        strikeout,
    }
}

fn cell(column: usize, character: char) -> PaneCell {
    PaneCell {
        source: ViewPoint { line: 0, column },
        grid: GridPoint { line: 0, column },
        projected: Some(ViewPoint { line: 0, column }),
        formula: false,
        highlighted: false,
        character,
        lines: lines(true, false, true),
        extra: true,
        fg: INK,
        underline_color: LINE,
    }
}

#[test]
fn clickable_cells_are_dashed_in_their_own_color() {
    let ranges = vec![
        ClickRange { start: GridPoint { line: 0, column: 0 }, end: GridPoint { line: 0, column: 1 } },
        ClickRange { start: GridPoint { line: 0, column: 3 }, end: GridPoint { line: 0, column: 3 } },
    ];
    let cells: Vec<PaneCell> = (0..5).map(|i| cell(i, 'x')).collect();
    let drawn = compose_cells(&cells, &ranges).cells;
    let dashed: Vec<bool> = drawn.iter().map(|c| c.lines.dashed_underline).collect();
    assert_eq!(dashed, vec![true, true, false, true, false]);
    assert_eq!(drawn[0].lines, lines(false, true, true));
    assert_eq!((drawn[0].underline_color, drawn[2].underline_color), (INK, LINE));
}

#[test]
fn formulas_and_icons_are_drawn_as_blanks() {
    let mut formula = cell(0, 'x');
    formula.formula = true;
    let icon = cell(1, NEBULA_FOLDER_ICON_MARKER);
    let mut lit = cell(2, 'y');
    lit.highlighted = true;
    lit.lines = lines(false, false, false);
    let mut gone = cell(3, 'z');
    gone.projected = None;
    gone.highlighted = true;
    let r = compose_cells(&vec![formula, icon, lit, gone], &Vec::new());
    assert_eq!(r.cells.len(), 3);
    assert_eq!((r.cells[0].character, r.cells[0].extra, r.cells[0].lines), (' ', false, lines(false, false, false)));
    assert_eq!(r.cells[1].character, ' ');
    assert_eq!(r.icons.len(), 1);
    assert_eq!(r.icons[0].kind, PowerlineIconKind::Folder);
    let below: usize = r.icons[0].point.line + 1;
    assert_eq!(draw_powerline_icons(&r.icons, below), r.icons);
    assert!(draw_powerline_icons(&r.icons, r.icons[0].point.line).is_empty());
    assert!(r.cells[2].lines.underline);
    assert_eq!(r.damage, vec![ViewPoint { line: 0, column: 2 }]);
}

fn pane() -> PaneInput {
    PaneInput {
        force_focus: None,
        was_focused: true,
        clear_first: true,
        custom_background: None,
        default_background: INK,
        alt_screen: false,
        vi_mode: false,
        vi_point: GridPoint { line: 0, column: 0 },
        search: None,
        selection: false,
        cursor: Some(ViewPoint { line: 2, column: 76 }),
        vi_cursor: None,
        columns: 80,
        screen_lines: 24,
        window_columns: 80,
        window_lines: 24,
        display_offset: 5,
        total_lines: 124,
        reads_grid: true,
        grid_input: Some("git st".to_string()),
        first_background: Some(LINE),
        ime_enabled: true,
        preedit: false,
        message: None,
        highlighted: false,
        suggestion: "atus --short".to_string(),
        has_completions: true,
    }
}

#[test]
fn suggestion_ends_with_the_line() {
    let mut page = PageState::fresh(NebulaSettingsSection::Other(0));
    page.message_close_hover = true;
    let p = pane().draw_pane(&mut page);
    assert!(p.focused && p.clear && p.scan_formulas && p.reflow_formulas && p.validate_hints);
    assert_eq!(p.background, INK);
    assert!(matches!(pane().completion_step(), CompletionStep::SuggestFor(s) if s == "git st"));
    assert_eq!(p.suggestion.map(|s| s.text), Some("atus".to_string()));
    assert_eq!(p.popup, Some(ViewPoint { line: 2, column: 76 }));
    assert_eq!(p.ime_point, Some(ViewPoint { line: 2, column: 76 }));
    assert!(p.indicator.is_none() && p.search.is_none() && p.message_line.is_none());
    assert!(!page.message_close_hover);
}

#[test]
fn search_owns_the_screen() {
    let mut input = pane();
    input.search = Some((true, "abc".to_string()));
    input.message = Some((true, true));
    let mut page = PageState::fresh(NebulaSettingsSection::Other(0));
    let p = input.draw_pane(&mut page);
    assert!(matches!(input.completion_step(), CompletionStep::Clear));
    assert!(p.suggestion.is_none() && p.popup.is_none());
    let bar = p.search.expect("a search line");
    assert_eq!((bar.text.as_str(), bar.column, bar.caret), ("Search: abc ", 11, true));
    assert_eq!(p.ime_point, Some(ViewPoint { line: 24, column: 11 }));
    assert!(p.ime_on_footer && !p.scan_formulas);
    assert_eq!(p.indicator.map(|i| i.text), Some("[5/123]".to_string()));
    assert_eq!((p.message_line, p.message_is_error), (Some(25), true));
    assert!(page.message_close);
}

#[test]
fn keyboard_cursor_moves_the_line_note_away() {
    let mut input = pane();
    input.vi_mode = true;
    input.vi_point = GridPoint { line: -5, column: 79 };
    input.vi_cursor = Some(ViewPoint { line: 0, column: 79 });
    input.force_focus = Some(false);
    let p = input.draw_pane(&mut PageState::fresh(NebulaSettingsSection::Other(0)));
    let i = p.indicator.expect("a note");
    assert_eq!((i.text.as_str(), i.column, i.drawn), ("[28/123]", 72, false));
    assert_eq!(p.vi_cursor, Some(ViewPoint { line: 0, column: 79 }));
    assert!(!p.focused && !p.validate_hints);
}

#[test]
fn full_screen_program_colors_the_edge() {
    let mut input = pane();
    input.alt_screen = true;
    assert!(matches!(input.completion_step(), CompletionStep::Clear));
    let p = input.draw_pane(&mut PageState::fresh(NebulaSettingsSection::Other(0)));
    assert_eq!(p.edge_background, Some(LINE));
    assert!(!p.reflow_formulas && p.suggestion.is_none() && p.popup.is_none());
    let mut input = pane();
    input.reads_grid = false;
    let mut page = PageState::fresh(NebulaSettingsSection::Other(0));
    assert!(matches!(input.completion_step(), CompletionStep::SuggestTracked));
    input.grid_input = None;
    assert!(input.draw_pane(&mut page).suggestion.is_some());
    input.reads_grid = true;
    assert!(matches!(input.completion_step(), CompletionStep::ClearLine));
    let p = input.draw_pane(&mut page);
    assert!(p.suggestion.is_none() && p.popup.is_none());
    let mut input = pane();
    input.preedit = true;
    let p = input.draw_pane(&mut page);
    assert!(p.suggestion.is_none() && p.popup.is_none());
}

#[test]
fn notes_of_a_split_stand_at_the_window() {
    let mut input = pane();
    input.columns = 40;
    input.screen_lines = 10;
    input.search = Some((true, "abc".to_string()));
    let p = input.draw_pane(&mut PageState::fresh(NebulaSettingsSection::Other(0)));
    assert!(p.damage_frame && p.damage_next_frame);
    let note = p.indicator.expect("a note");
    assert_eq!((note.column, note.damage.line), (73, 0));
    assert_eq!((note.damage.left, note.damage.right), (73, 79));
    let bar = p.search.expect("a search line");
    assert_eq!((bar.line, bar.filled.len(), bar.column), (24, 80, 11));
    assert_eq!(p.ime_point, Some(ViewPoint { line: 10, column: 11 }));
}

#[test]
fn pictures_leave_with_the_history() {
    let image = |id, abs_line, rows| InlineImage { id, abs_line, rows };
    let kept = prune_images(&vec![image(1, 0, 3), image(2, 5, 5), image(3, 8, 2), image(4, 20, 1)], 10);
    let ids: Vec<u64> = kept.iter().map(|i| i.id).collect();
    assert_eq!(ids, vec![2, 3, 4]);
}

#[test]
fn scroll_bar_gives_the_offset_back() {
    assert_eq!(scrollbar_lines_above(0, 100, 24), None);
    assert_eq!(scrollbar_lines_above(0, 20, 24), None);
    assert_eq!(scrollbar_lines_above(10, 100, 24), Some(66));
    assert_eq!(scrollbar_target_offset(66, 100, 24), 10);
    assert_eq!(scrollbar_target_offset(500, 100, 24), 0);
    assert_eq!(scrollbar_target_offset(0, 20, 24), 0);
}

fn theme(id: u32) -> NebulaTheme {
    NebulaTheme { id, term_bg: Rgb { r: id as u8, g: 0, b: 0 } }
}

fn settings(follow_system: bool) -> NebulaRuntimeSettings {
    NebulaRuntimeSettings {
        language: 1,
        switches: Switches {
            suggestions: true,
            fetch: false,
            powerline: true,
            blur: true,
            keep_session: false,
            restore_session: true,
            resume_ai: false,
            tray: true,
            cover_chrome: false,
            cursor_blink: true,
            copy_on_select: false,
            cjk_bold_regular: false,
            panel_resize: true,
        },
        choices: Choices {
            accept: 1,
            completion_style: 2,
            image_fit: 3,
            image_alignment: 4,
            cursor_shape: 5,
            tabs_position: 6,
            tab_reveal: 7,
            density: 8,
            new_tab_position: 9,
            cell_width_mode: 10,
        },
        theme: ThemeSettings {
            preference: ThemePreference { chosen: theme(1), light: theme(2), dark: theme(3) },
            follow_system,
            background: Some(LINE),
        },
        shell: ShellSettings { family: 1, shell_id: None, startup_directory: None },
        font_family: "Maple".to_string(),
        font_size: None,
        look: LookSettings { opacity: Px { bits: 1 }, image: None, image_opacity: Px { bits: 2 } },
        hosts: HostSettings {
            pinned: vec!["p".to_string()],
            saved: vec!["s".to_string()],
            hidden: vec!["h".to_string()],
        },
        panels: PanelSettings { sidebar_w: Px { bits: 3 }, drawer_w: Px { bits: 4 }, hosts_band: Px { bits: 5 } },
        keys: KeySettings {
            keybinds: vec![Keybind { combo: "Ctrl+A".to_string(), action: "copy".to_string() }],
            quick_hotkey: "Alt+Q".to_string(),
        },
        proxy: ProxySettings {
            mode: ProxyMode::Custom,
            url: "jump:b".to_string(),
            no_proxy: String::new(),
        },
    }
}

fn reading() -> ProxyReading {
    ProxyReading {
        protocol: ManualProxyProtocol::Socks5,
        is_jump: true,
        is_command: false,
        shown: String::new(),
    }
}

fn selection() -> BackupSelection {
    BackupSelection {
        appearance: true,
        config: true,
        ssh: false,
        sync: false,
        assistant: false,
        session: false,
        directory_history: false,
        command_history: false,
        fonts: false,
    }
}

fn target() -> BackupTarget {
    BackupTarget { protocol: BackupProtocol::WebDav, field_count: 3, secret_field: Some(2) }
}

fn boot() -> BootInput {
    BootInput {
        language: UiLanguage::English,
        system_theme: Some(SystemTheme::Dark),
        window_theme: Some(SystemTheme::Light),
        window_override: None,
        config_background: INK,
        config_dimensions: None,
        base_cell: Some((Px { bits: 71 }, Px { bits: 72 })),
        cell: (Px { bits: 81 }, Px { bits: 82 }),
        font_size_bits: 6,
        installed: vec!["Arial".to_string()],
        required: "Maple".to_string(),
        missing_font_directory: None,
        font_error: None,
        grid: Viewport { columns: 80, screen_lines: 24 },
        section: NebulaSettingsSection::Other(0),
        proxy: reading(),
        profiles: Vec::new(),
        hosts: vec!["p".to_string(), "s".to_string()],
        providers: vec![AiProvider {
            id: "a".to_string(),
            name: "A".to_string(),
            note: String::new(),
            website_url: String::new(),
            base_url: String::new(),
            model: String::new(),
            enabled: true,
            codex_goals: true,
            codex_remote_compaction: false,
            api_key_set: false,
            requires_api_key: false,
        }],
        active_provider: String::new(),
        swatches: Vec::new(),
        backup_selection: selection(),
        backup_target: target(),
        mtime: Some(10),
        startup_mode: StartupMode::Maximized,
        platform: Platform::Unix,
        tabbed: false,
        wayland: false,
        sees_through: true,
        resize_increments: false,
        config_paths: vec!["/c/n.lua".to_string()],
        highlight_damage: false,
    }
}

fn reload() -> ReloadInput {
    ReloadInput {
        language: UiLanguage::Chinese,
        window_theme: None,
        installed: None,
        required: "Maple".to_string(),
        panels_resized: true,
        proxy: reading(),
    }
}

fn stored() -> (StoredSync, StoredBackup) {
    (
        StoredSync {
            url: "https://a".to_string(),
            username: "me".to_string(),
            auto_pull: true,
            password_set: true,
            passphrase_set: false,
        },
        StoredBackup { target: target(), slots: Vec::new(), secret_set: true },
    )
}

#[test]
fn new_window_starts_with_its_settings() {
    let (d, a) = Display::new(settings(false), boot());
    assert_eq!(d.theme.theme, theme(1));
    assert_eq!(d.theme.background, Some(LINE));
    assert_eq!((a.clear_color, a.dimensions, a.startup), (LINE, (116, 30), StartupAction::Maximize));
    assert!(a.probe_system_proxy);
    assert!(a.swap_first_frame && a.blur && !a.release_theme);
    assert_eq!(d.ui.font.families, ["Maple", "Arial"]);
    assert_eq!(d.proxy.choice, ProxyChoice::Jump);
    assert!(d.confirm.is_none());
    let back = d.persist_nebula_settings(Px { bits: 77 });
    assert_eq!((back.switches, back.choices), (settings(false).switches, settings(false).choices));
    assert_eq!((back.hosts.saved, back.font_size), (vec!["s".to_string()], Some(Px { bits: 77 })));
    assert_eq!((back.theme, back.proxy.url), (settings(false).theme, "jump:b".to_string()));
}

#[test]
fn new_window_follows_the_system() {
    let (d, a) = Display::new(settings(true), boot());
    assert_eq!(d.theme.theme, theme(3));
    assert_eq!(d.theme.background, Some(theme(3).term_bg));
    assert_eq!(a.clear_color, theme(3).term_bg);
    assert!(a.release_theme);
}

#[test]
fn new_window_tells_about_missing_fonts() {
    let mut input = boot();
    input.missing_font_directory = Some("fonts".to_string());
    input.font_error = Some("gone".to_string());
    input.wayland = true;
    input.config_dimensions = Some((90, 20));
    let (d, a) = Display::new(settings(false), input);
    assert!(matches!(d.confirm, Some(NebulaConfirm::InstallRequiredFont { ref directory }) if directory == "fonts"));
    assert_eq!(
        d.ui.font.notice.as_deref(),
        Some("字体「Maple」本次不可用（gone），暂用内置字体；偏好已保留。")
    );
    assert_eq!((a.dimensions, a.startup, a.swap_first_frame), ((90, 20), StartupAction::Nothing, false));
    let mut input = boot();
    input.startup_mode = StartupMode::Fullscreen;
    assert_eq!(Display::new(settings(false), input).1.startup, StartupAction::Nothing);
    let mut input = boot();
    input.startup_mode = StartupMode::SimpleFullscreen;
    input.platform = Platform::MacOs;
    assert_eq!(Display::new(settings(false), input).1.startup, StartupAction::SimpleFullscreen);
}

#[test]
fn own_write_changes_nothing_when_it_is_read_back() {
    let (mut d, _) = Display::new(settings(true), boot());
    let mut fx = Fx::none((1, 1));
    let kept = d.persist_nebula_settings(Px { bits: 1 });
    assert!(!d.reload_nebula_settings_if_changed(Some(10), kept, reload(), &mut fx));
    let kept = d.persist_nebula_settings(Px { bits: 1 });
    let theme_before = d.theme.theme;
    assert!(d.reload_nebula_settings_if_changed(Some(11), kept, reload(), &mut fx));
    let again = d.persist_nebula_settings(Px { bits: 1 });
    let first = Display::new(settings(true), boot()).0.persist_nebula_settings(Px { bits: 1 });
    assert_eq!(format!("{again:?}"), format!("{first:?}"));
    assert_eq!((d.theme.theme, d.mtime), (theme_before, Some(11)));
    // What the window wrote itself is not read back.
    let kept = d.persist_nebula_settings(Px { bits: 1 });
    d.settings_written(Some(12));
    assert!(!d.reload_nebula_settings_if_changed(Some(12), kept, reload(), &mut fx));
}

#[test]
fn window_of_a_platform_starts_its_way() {
    let (d, a) = Display::new(settings(false), boot());
    assert!(a.transparent && a.show && !a.set_increments && !a.take_focus && !a.apply_min_size);
    assert_eq!((a.shadow, a.clear_opacity, a.recolor), (None, Px { bits: 1 }, d.theme.theme));
    assert_eq!((d.keymap.query.anchor, d.ui.font.query.anchor), (None, None));
    let mut input = boot();
    input.platform = Platform::MacOs;
    input.resize_increments = true;
    let (_, a) = Display::new(settings(false), input);
    assert!(a.set_increments && a.take_focus && !a.apply_min_size);
    assert_eq!(a.shadow, Some(false));
    let mut input = boot();
    input.platform = Platform::Windows;
    input.sees_through = false;
    let (_, a) = Display::new(settings(false), input);
    assert!(!a.transparent && a.apply_min_size && a.shadow.is_none());
}

#[test]
fn zoomed_font_does_not_change_the_start_size() {
    let (_, a) = Display::new(settings(false), boot());
    let mut input = boot();
    input.cell = (Px { bits: 91 }, Px { bits: 92 });
    input.font_size_bits = 60;
    let (_, b) = Display::new(settings(false), input);
    assert_eq!((a.dimensions, a.start_cell), ((116, 30), (Px { bits: 71 }, Px { bits: 72 })));
    assert_eq!((b.dimensions, b.start_cell), (a.dimensions, a.start_cell));
    assert_eq!((a.start_sidebar_w, b.start_sidebar_w), (Px { bits: 3 }, Px { bits: 3 }));
    let mut input = boot();
    input.base_cell = None;
    let (_, c) = Display::new(settings(false), input);
    assert_eq!(c.start_cell, (Px { bits: 81 }, Px { bits: 82 }));
}

#[test]
fn changed_settings_are_taken_over() {
    let (mut d, _) = Display::new(settings(false), boot());
    let mut fx = Fx::none((1, 1));
    d.keymap.capture = Some(1);
    let mut s = settings(false);
    s.theme.preference = ThemePreference { chosen: theme(7), light: theme(7), dark: theme(7) };
    s.switches.tray = false;
    s.switches.cursor_blink = false;
    s.switches.cjk_bold_regular = true;
    s.choices.cursor_shape = 99;
    s.font_family = "Arial".to_string();
    s.look.image = Some("a.png".to_string());
    s.keys.quick_hotkey = "Alt+Z".to_string();
    s.proxy.mode = ProxyMode::System;
    assert!(d.reload_nebula_settings_if_changed(Some(12), s, reload(), &mut fx));
    assert_eq!(d.theme.theme, theme(7));
    // The cursor of this window stays.
    assert!(d.switches.cursor_blink && !d.switches.tray);
    assert_eq!(d.choices.cursor_shape, 5);
    assert_eq!((d.keymap.capture, d.keymap.quick_request.as_deref()), (None, Some("Alt+Z")));
    assert_eq!((d.proxy.mode, d.proxy.test_seq), (ProxyMode::System, 1));
    assert_eq!(d.language, UiLanguage::Chinese);
    let r = fx.requests;
    assert!(r.set_language && r.reset_glyphs && r.invalidate_image && r.probe_system_proxy);
    assert_eq!(r.set_tray, Some(false));
    assert!(fx.merge_hosts && fx.update.terminal_colors_dirty());
    assert_eq!(fx.update.dimensions(), Some((1, 1)));
    assert_eq!(fx.update.font().map(|f| f.family.as_str()), Some("Arial"));
}

#[test]
fn settings_page_opens_and_closes() {
    let (mut d, _) = Display::new(settings(false), boot());
    let mut fx = Fx::none((1, 1));
    d.panels.drawer_open = true;
    let (sync, backup) = stored();
    d.set_settings_tab_active(true, sync, backup, &mut fx);
    assert!(d.ui.page.open && !d.panels.drawer_open);
    assert_eq!(d.sync.inputs[1], vec!['m', 'e']);
    assert!(d.backup.secret_set);
    d.sync.focus_sync_field(0, &mut fx);
    d.keymap.capture = Some(2);
    d.ui.page.dropdown = Some(SettingsDropdown::Other(1));
    let (sync, backup) = stored();
    let (c, _) = d.set_settings_tab_active(false, sync, backup, &mut fx);
    assert!(matches!(c, SyncCommit::SaveConfig { ref url, .. } if url == "https://a"));
    assert!(!d.ui.page.open && d.keymap.capture.is_none() && d.ui.page.dropdown.is_none());
    let (sync, backup) = stored();
    assert!(matches!(d.set_settings_tab_active(false, sync, backup, &mut fx).0, SyncCommit::Nothing));
}

#[test]
fn sections_look_for_what_they_need() {
    let (mut d, _) = Display::new(settings(false), boot());
    let mut fx = Fx::none((1, 1));
    d.select_settings_section(NebulaSettingsSection::Proxy, &mut fx);
    assert!(d.proxy.scanning && fx.requests.probe_system_proxy);
    d.select_settings_section(NebulaSettingsSection::Providers, &mut fx);
    assert_eq!(d.providers.active_id, "a");
    assert_eq!(d.ui.page.settings_section(), NebulaSettingsSection::Providers);
}

#[test]
fn special_pages_drop_a_waiting_backup() {
    let (mut d, _) = Display::new(settings(false), boot());
    let mut fx = Fx::none((1, 1));
    d.panels.drawer_open = true;
    d.set_special_tab_active(true, &mut fx);
    assert!(d.ui.page.special_tab && !d.panels.drawer_open);
    let mut confirm = None;
    d.backup.start_backup_export(Some("x".to_string()), &mut confirm, &mut fx);
    d.confirm = confirm;
    d.set_special_tab_active(false, &mut fx);
    assert!(d.confirm.is_none() && d.backup.operation.is_none() && !d.ui.page.special_tab);
}

#[test]
fn input_method_belongs_to_one_field() {
    let (mut d, _) = Display::new(settings(false), boot());
    d.proxy.focus = Some(1);
    assert_eq!(d.update_settings_ime_cursor(), ImeTarget::Terminal);
    d.ui.page.open = true;
    d.providers.focus = Some(2);
    assert_eq!(d.update_settings_ime_cursor(), ImeTarget::Proxy(1));
    d.proxy.focus = None;
    assert_eq!(d.update_settings_ime_cursor(), ImeTarget::Provider(2));
    d.keymap.search_focus = true;
    assert_eq!(d.update_settings_ime_cursor(), ImeTarget::KeymapSearch);
    d.ui.page.dropdown = Some(SettingsDropdown::Font);
    assert_eq!(d.update_settings_ime_cursor(), ImeTarget::FontSearch);
    d.ui.page.dropdown = None;
    d.keymap.search_focus = false;
    d.providers.focus = None;
    assert_eq!(d.update_settings_ime_cursor(), ImeTarget::Unchanged);
}

#[test]
fn text_drag_goes_to_its_field() {
    let (mut d, _) = Display::new(settings(false), boot());
    let mut fx = Fx::none((1, 1));
    assert!(!d.settings_text_drag_to(Some(1), &mut fx));
    d.ui.font.font_query_edit(Some("abc"), &mut fx);
    d.ui.page.text_drag = Some(TextDrag::Font);
    assert!(d.settings_text_drag_to(Some(1), &mut fx));
    assert_eq!(d.ui.font.font_query_selected_text(), Some("bc".to_string()));
    d.keymap.keymap_search_edit("xyz", &mut fx);
    d.ui.page.text_drag = Some(TextDrag::Keymap);
    d.settings_text_drag_to(Some(0), &mut fx);
    assert_eq!(d.keymap.keymap_search_selected_text(), Some("xyz".to_string()));
}

#[test]
fn backup_protocol_is_changed_after_the_field_is_left() {
    let (mut d, _) = Display::new(settings(false), boot());
    let mut fx = Fx::none((1, 1));
    assert!(d.set_backup_protocol_option(false, Ok(()), stored().1, &mut fx).is_none());
    d.backup.focus = Some(0);
    assert!(d.set_backup_protocol_option(true, Ok(()), stored().1, &mut fx).is_some());
    d.ui.page.dropdown = Some(SettingsDropdown::Other(2));
    assert!(d.set_backup_protocol_option(true, Err("disk".to_string()), stored().1, &mut fx).is_none());
    assert!(d.ui.page.dropdown.is_none() && d.backup.status_remote);
    assert_eq!(d.backup.status, Some(("disk".to_string(), true)));
}

#[test]
fn language_and_switch_states() {
    let (mut d, _) = Display::new(settings(false), boot());
    let mut fx = Fx::none((1, 1));
    d.set_ui_language(1, UiLanguage::Chinese, &mut fx);
    assert_eq!(d.ui_language(), UiLanguage::English);
    d.set_ui_language(2, UiLanguage::Chinese, &mut fx);
    assert_eq!(d.ui_language(), UiLanguage::Chinese);
    assert!(fx.persist && fx.requests.set_language);
    d.providers.open_page();
    let t = d.settings_toggle_targets();
    assert_eq!(t.len(), 17);
    assert_eq!((t[0], t[1], t[13], t[16]), (false, true, true, true));
    assert!(!d.chrome_editor_active(false, true, false));
    d.sftp.destination = Some("box".to_string());
    assert!(d.chrome_editor_active(false, true, false));
    let theme_in_use = d.theme.theme;
    d.update_config(vec!["/d".to_string()], Vec::new(), true, &mut fx);
    assert!(d.shells.profiles.is_empty() && d.highlight_damage);
    assert_eq!(d.config_paths, ["/d"]);
    assert_eq!(fx.requests.recolor, Some(theme_in_use));
    assert!(fx.requests.update_bell);
}

#[test]
fn picture_of_the_settings() {
    let (d, _) = Display::new(settings(false), boot());
    let mark = |host: &str, mark: &str| HostMark { host: host.to_string(), mark: mark.to_string() };
    let v = d.settings_view(&ViewInput {
        shell: ShellNames {
            icon: "#".to_string(),
            name_of_id: "id".to_string(),
            family_name: "bash".to_string(),
        },
        labels: vec![mark("p", "old"), mark("p", "Prod")],
        icons: vec![mark("s", "star")],
        default_icon: "box".to_string(),
        rows: vec![KeymapRow {
            zh: "甲".to_string(),
            en: "A".to_string(),
            combo: Some("Ctrl+A".to_string()),
        }],
        readonly: Vec::new(),
        proxy_address: "h:1".to_string(),
        proxy_command: "nc".to_string(),
        light_preview: true,
    });
    assert_eq!(v.shell.label, "#  bash");
    assert_eq!((v.hosts[0].label.as_str(), v.hosts[0].icon.as_str(), v.hosts[0].pinned), ("Prod", "box", true));
    assert_eq!((v.hosts[1].label.as_str(), v.hosts[1].icon.as_str(), v.hosts[1].pinned), ("s", "star", false));
    assert_eq!((v.preview_bg, v.preview_fg), (LINE, Rgb { r: 40, g: 44, b: 52 }));
    // What stands for a jump is no address.
    assert_eq!((v.proxy.address.as_str(), v.proxy.command.as_str()), ("", "nc"));
    assert_eq!(v.keymap.combos, [Some("Ctrl+A".to_string())]);
    assert_eq!((v.keymap.visible, v.keymap.clash_rows), (vec![0], vec![false]));
    assert_eq!(v.hidden_hosts, ["h"]);
    assert_eq!(v.backup.protocol, BackupProtocol::WebDav);
    assert_eq!(v.font.family, "Maple");
}
