use nebula_display::color::{Px, Rgb};
use nebula_display::config::Profile;
use nebula_display::fx::Fx;
use nebula_display::hosts::HostState;
use nebula_display::launcher::{
    open_ai_session_palette, open_default_shell_picker, open_shell_menu, open_user_config_file,
    reveal_focused_cwd, toggle_command_palette, toggle_shell_menu, user_config_file_opened,
    AiSession, PaletteMode,
};
use nebula_display::look::{
    LookDefaults, LookState, OpacityDrag, SettingsOpacityTarget, IMAGE_OPACITY, OPAQUE,
};
use nebula_display::modal::NebulaConfirm;
use nebula_display::page::{NebulaSettingsSection, PageState, SettingsDropdown};
use nebula_display::panels::{
    choose_side_panel_directory, follow_focused_directory, Drawer, EdgeHits, PanelDragKind,
    PanelMotion, PanelState, SftpAction, SftpHit, SftpState, SidebarScrollKind, SidebarState,
};
use nebula_display::prefs::{Choices, Switches};
use nebula_display::shells::{import_terminal_directory, DetectedShell, ShellState, TerminalImport};
use nebula_display::view::HostMark;
use nebula_display::theme::{NebulaTheme, ThemePreference, ThemeState};

fn px(bits: u32) -> Px {
    Px { bits }
}

fn panels() -> PanelState {
    PanelState {
        sidebar_collapsed: false,
        drawer_open: true,
        drawer_view: 1,
        search_focus: true,
        commit_focus: false,
        sidebar_w: px(10),
        drawer_w: px(20),
        hosts_band: px(30),
        drag: None,
    }
}

const SHUT: Drawer = Drawer { open: false, view: 7, search_focus: false, commit_focus: false };

fn fx() -> Fx {
    Fx::none((640, 480))
}

fn motion(target: u32, now: u64) -> PanelMotion {
    PanelMotion { collapses: false, target: px(target), differs: true, crosses_cell: true, now }
}

#[test]
fn sidebar_folds_with_a_new_layout() {
    let mut p = panels();
    let mut f = fx();
    p.toggle_sidebar(&mut f);
    assert!(p.sidebar_collapsed && f.redraw);
    assert_eq!(f.update.dimensions(), Some((640, 480)));
    let mut f = fx();
    p.close_drawer(&mut f);
    assert!(!p.drawer_open && !p.search_focus && f.redraw);
    let mut f = fx();
    p.close_drawer(&mut f);
    assert!(!f.redraw);
}

#[test]
fn widths_are_dragged_only_where_that_is_on() {
    let all = EdgeHits {
        drawer_visible: true,
        drawer_settled: true,
        on_drawer_edge: true,
        sidebar_visible: true,
        sidebar_settled: true,
        sidebar_has_width: true,
        on_sidebar_edge: true,
        hosts_open: true,
        on_hosts_edge: true,
    };
    assert_eq!(PanelState::panel_resize_hit(true, all), Some(PanelDragKind::DrawerWidth));
    let side = EdgeHits { on_drawer_edge: false, ..all };
    assert_eq!(PanelState::panel_resize_hit(true, side), Some(PanelDragKind::SidebarWidth));
    assert_eq!(PanelState::panel_resize_hit(false, all), Some(PanelDragKind::HostsBand));
    let moving = EdgeHits { sidebar_settled: false, ..side };
    assert_eq!(PanelState::panel_resize_hit(true, moving), None);
}

#[test]
fn dragged_width_lays_out_now_and_at_the_end() {
    let mut p = panels();
    let mut f = fx();
    p.begin_panel_drag(PanelDragKind::SidebarWidth, px(0), px(0), 1000);
    assert!(p.update_panel_drag(motion(11, 1010), &mut f));
    assert_eq!((p.sidebar_w, p.sidebar_w_visual()), (px(10), px(11)));
    assert!(f.update.dimensions().is_none());
    assert!(p.update_panel_drag(motion(12, 1080), &mut f));
    assert_eq!(p.sidebar_w, px(12));
    assert_eq!(f.update.dimensions(), Some((640, 480)));
    assert!(!p.update_panel_drag(PanelMotion { differs: false, ..motion(12, 1090) }, &mut f));
    p.update_panel_drag(motion(13, 1081), &mut f);
    assert!(!f.persist);
    assert!(p.end_panel_drag(&mut f));
    assert_eq!((p.sidebar_w, p.drag), (px(13), None));
    assert!(f.persist);
    assert!(!p.end_panel_drag(&mut f));
}

#[test]
fn pushed_out_panel_keeps_its_width() {
    let mut p = panels();
    let mut f = fx();
    p.begin_panel_drag(PanelDragKind::DrawerWidth, px(0), px(0), 0);
    assert_eq!(p.drawer_w_visual(), px(20));
    let out = PanelMotion { collapses: true, ..motion(99, 5) };
    assert!(p.update_panel_drag(out, &mut f));
    assert!(!p.drawer_open && p.drag.is_none());
    assert_eq!(p.drawer_w, px(20));
    assert!(f.persist);
    p.begin_panel_drag(PanelDragKind::SidebarWidth, px(0), px(0), 0);
    assert!(p.update_panel_drag(out, &mut f));
    assert!(p.sidebar_collapsed);
    // The host list has a height, and never folds away.
    p.begin_panel_drag(PanelDragKind::HostsBand, px(31), px(0), 0);
    assert!(p.update_panel_drag(out, &mut f));
    assert_eq!(p.hosts_band, px(99));
}

fn sidebar() -> SidebarState {
    SidebarState {
        tabs_open: true,
        hosts_open: false,
        tabs_scroll: 3,
        hosts_scroll: 0,
        scroll_drag: None,
        queue_open: false,
    }
}

#[test]
fn wheel_keeps_a_section_in_its_list() {
    let mut s = sidebar();
    let mut f = fx();
    assert!(!s.sidebar_wheel(None, 1, &mut f));
    assert!(s.sidebar_wheel(Some((SidebarScrollKind::Tabs, 5)), 9, &mut f));
    assert_eq!(s.tabs_scroll, 5);
    s.sidebar_wheel(Some((SidebarScrollKind::Tabs, 5)), -99, &mut f);
    assert_eq!(s.tabs_scroll, 0);
    assert!(!s.sidebar_scrollbar_drag_to(Some(2), &mut f));
    assert!(s.sidebar_scrollbar_press(Some((SidebarScrollKind::Hosts, px(1), 4)), &mut f));
    assert_eq!(s.hosts_scroll, 4);
    assert!(s.sidebar_scrollbar_dragging());
    assert!(!s.sidebar_scrollbar_drag_to(Some(4), &mut f));
    assert!(s.sidebar_scrollbar_drag_to(Some(6), &mut f));
    assert_eq!(s.hosts_scroll, 6);
    assert!(s.end_sidebar_scrollbar_drag());
    assert!(!s.end_sidebar_scrollbar_drag());
}

#[test]
fn sidebar_lists_sessions_only() {
    let mut s = sidebar();
    let m = s.sidebar_model(0, &panels());
    assert_eq!((m.tab_count, m.host_count, m.hosts_open), (1, 0, false));
    s.toggle_sidebar_section(true, &mut fx());
    s.toggle_sidebar_section(false, &mut fx());
    s.toggle_message_queue_entry(&mut fx());
    assert!(s.hosts_open && !s.tabs_open && s.queue_open);
}

#[test]
fn remote_files_follow_the_focused_session() {
    let mut s = SftpState { destination: None, routed: true };
    let mut p = panels();
    let mut f = fx();
    p.drawer_open = false;
    assert!(s.open_sftp_panel(Err("refused".to_string()), false, &mut p, &mut f)
        .is_err_and(|e| e == "无法打开 SFTP: refused"));
    assert!(s.open_sftp_panel(Ok("box".to_string()), false, &mut p, &mut f).is_ok());
    assert!(p.drawer_open && s.sftp_view_active());
    assert_eq!(f.update.dimensions(), Some((640, 480)));
    s.route_side_panel(Some("other"), &mut f);
    assert!(!s.sftp_view_active());
    assert_eq!(s.sftp_hit(SftpHit::Path), SftpHit::Nothing);
    s.route_side_panel(Some("box"), &mut f);
    assert_eq!(s.sftp_hit(SftpHit::Path), SftpHit::Path);
    assert_eq!(s.sftp_click(SftpHit::Row(2), &mut p, &mut f), SftpAction::SelectRow(2));
    assert_eq!(s.sftp_click(SftpHit::Close, &mut p, &mut f), SftpAction::CancelTransfer);
    assert!(!p.drawer_open && s.destination.is_none());
    assert_eq!(s.sftp_click(SftpHit::Filter, &mut p, &mut f), SftpAction::Nothing);
    assert!(!s.close_sftp_panel(&mut p, &mut f));
}

#[test]
fn drawer_turns_to_another_view() {
    let mut s = SftpState { destination: Some("box".to_string()), routed: true };
    let mut p = panels();
    let mut f = fx();
    s.toggle_side_panel(2, SHUT, true, &mut p, &mut f);
    assert!(!f.redraw);
    s.toggle_side_panel(2, SHUT, false, &mut p, &mut f);
    assert!(p.drawer_open && s.destination.is_none());
    assert_eq!(p.drawer_view, 2);
    s.toggle_side_panel(2, SHUT, false, &mut p, &mut f);
    assert!(!p.drawer_open);
    assert_eq!(p.drawer_view, 7);
    let mut f = fx();
    s.side_panel_sync(true, &mut f);
    assert!(f.update.dirty);
}

#[test]
fn remote_deletion_asks_first() {
    let s = SftpState { destination: Some("box".to_string()), routed: true };
    let none = SftpState { destination: None, routed: true };
    let mut confirm = None;
    none.sftp_request_delete_row(Some(("x".to_string(), true)), &mut confirm);
    assert!(confirm.is_none());
    s.sftp_request_delete_row(Some(("x".to_string(), true)), &mut confirm);
    assert!(matches!(confirm, Some(NebulaConfirm::DeleteSftp { ref name, is_dir: true }) if name == "x"));
    assert!(s.sftp_confirm_delete(&mut confirm) && confirm.is_none());
    assert!(!none.sftp_confirm_delete(&mut confirm));
    assert!(s.sftp_upload_dropped_paths(1, &mut fx()));
    assert!(!s.sftp_upload_dropped_paths(0, &mut fx()));
    assert!(!none.sftp_upload_dropped_paths(1, &mut fx()));
}

fn profile(name: &str, key: bool) -> Profile {
    Profile {
        name: name.to_string(),
        command: format!("{name}.exe"),
        args: Vec::new(),
        cwd: None,
        shell_id: Some("bash".to_string()),
        terminal_profile_id: if key { Some(name.to_string()) } else { None },
    }
}

fn shells() -> ShellState {
    ShellState {
        family: 1,
        shell_id: None,
        startup_directory: None,
        detected: Some(vec![DetectedShell {
            id: "pwsh".to_string(),
            name: "PowerShell".to_string(),
            program: "pwsh.exe".to_string(),
            family: Some(5),
        }]),
        profiles: vec![profile("own", false), profile("imp", true)],
    }
}

fn page() -> PageState {
    PageState {
        open: true,
        special_tab: true,
        section: NebulaSettingsSection::Other(0),
        scroll: px(0),
        dropdown: Some(SettingsDropdown::Shell),
        text_drag: None,
        chrome_hover: 0,
        settings_hover: 0,
        settings_pressed: 0,
        message_close: false,
        message_close_hover: false,
    }
}

#[test]
fn every_listed_shell_can_be_picked() {
    let mut s = shells();
    let mut pg = page();
    let mut f = fx();
    assert_eq!(s.shell_picker_count(), 2);
    let rows = s.shell_rows();
    assert_eq!((rows[0].id.as_str(), rows[1].id.as_str()), ("pwsh", "profile:bash|imp"));
    assert_eq!(rows[1].program, "imp.exe");
    s.set_default_shell_by_index(0, None, &mut pg, &mut f);
    assert_eq!((s.shell_id.as_deref(), s.family), (Some("pwsh"), 5));
    assert!(pg.dropdown.is_none() && f.persist);
    s.set_default_shell_by_index(1, Some(9), &mut pg, &mut f);
    assert_eq!((s.shell_id.as_deref(), s.family), (Some("profile:bash|imp"), 9));
    let mut f = fx();
    s.set_default_shell_by_index(2, None, &mut pg, &mut f);
    assert!(!f.persist);
    let found = DetectedShell {
        id: "zsh".to_string(),
        name: "Z".to_string(),
        program: "zsh".to_string(),
        family: None,
    };
    s.set_default_shell(&found, &mut f);
    assert_eq!((s.shell_id.as_deref(), s.family), (Some("zsh"), 9));
    assert!(f.persist);
}

#[test]
fn default_shell_names() {
    let mut s = shells();
    assert_eq!(s.default_name("n", "family"), "family");
    assert_eq!(s.default_icon_id("fid"), "fid");
    assert_eq!(s.default_shell_id("fid"), "fid");
    s.shell_id = Some("pwsh".to_string());
    assert_eq!(s.default_name("n", "family"), "n");
    assert_eq!(s.default_shell_id("fid"), "pwsh");
    s.set_default_profile(&profile("imp", true), None, &mut fx());
    assert_eq!(s.default_name("n", "family"), "imp");
    assert_eq!(s.default_icon_id("fid"), "bash");
    let mut f = fx();
    s.set_default_profile(&profile("own", false), None, &mut f);
    assert!(!f.persist);
}

#[test]
fn startup_directory_must_be_one() {
    let mut s = shells();
    let mut f = fx();
    s.pick_startup_directory(Some("/x".to_string()), false, &mut f);
    s.pick_startup_directory(None, true, &mut f);
    assert_eq!(s.startup_directory(true), None);
    s.pick_startup_directory(Some("/x".to_string()), true, &mut f);
    assert_eq!(s.startup_directory(true), Some("/x".to_string()));
    assert_eq!(s.startup_directory(false), None);
    s.clear_startup_directory(&mut f);
    assert_eq!(s.startup_directory(true), None);
}

#[test]
fn terminal_import_says_how_it_went() {
    assert_eq!(import_terminal_directory(&TerminalImport::Cancelled), (false, None));
    let message = |o: TerminalImport| import_terminal_directory(&o).1.expect("a message");
    assert_eq!(message(TerminalImport::ScanFailed("e".into())), ("无法扫描终端目录: e".into(), false));
    assert_eq!(message(TerminalImport::NothingFound), ("目录中未找到受支持的终端程序".into(), false));
    assert_eq!(message(TerminalImport::LoadFailed("e".into())), ("无法读取终端配置: e".into(), false));
    assert_eq!(message(TerminalImport::UpsertFailed("e".into())), ("无法导入终端: e".into(), false));
    assert_eq!(message(TerminalImport::SaveFailed("e".into())), ("无法保存终端配置: e".into(), false));
    assert_eq!(message(TerminalImport::Done(3)), ("已导入 3 个终端，立即可用".into(), true));
    assert!(import_terminal_directory(&TerminalImport::Done(3)).0);
}

fn look() -> LookState {
    LookState { opacity: px(1), image: None, image_opacity: px(2), drag: None }
}

#[test]
fn sliding_is_written_down_at_its_end() {
    let mut l = look();
    let mut f = fx();
    assert!(!l.update_settings_opacity_drag(px(9), true, &mut f));
    let drag = OpacityDrag {
        target: SettingsOpacityTarget::BackgroundImage,
        track_x: px(0),
        track_width: px(100),
    };
    l.begin_settings_opacity_drag(drag, px(5), true, &mut f);
    assert!(l.update_settings_opacity_drag(px(6), true, &mut f));
    assert_eq!((l.image_opacity, l.opacity, f.persist), (px(6), px(1), false));
    assert!(f.requests.refresh_transparency);
    assert!(l.finish_settings_opacity_drag(&mut f));
    assert!(f.persist);
}

#[test]
fn background_image_is_picked_and_cleared() {
    let mut l = look();
    let mut f = fx();
    l.pick_background_image(None, &mut f);
    l.clear_background_image(&mut f);
    assert!(!f.persist);
    l.pick_background_image(Some("a.png".to_string()), &mut f);
    assert_eq!(l.image.as_deref(), Some("a.png"));
    assert!(f.persist && f.requests.invalidate_image);
    l.clear_background_image(&mut f);
    assert_eq!(l.image, None);
}

fn switches() -> Switches {
    Switches {
        suggestions: true,
        fetch: true,
        powerline: true,
        blur: true,
        keep_session: true,
        restore_session: true,
        resume_ai: true,
        tray: true,
        cover_chrome: true,
        cursor_blink: true,
        copy_on_select: true,
        cjk_bold_regular: true,
        panel_resize: true,
    }
}

#[test]
fn appearance_can_be_put_back() {
    let mut l = look();
    l.image = Some("a.png".to_string());
    let t = |id| NebulaTheme { id, term_bg: Rgb { r: 0, g: 0, b: 0 } };
    let p = |id| ThemePreference { chosen: t(id), light: t(id), dark: t(id) };
    let mut theme = ThemeState {
        theme: t(1),
        preference: p(1),
        follow_system: true,
        system_theme: None,
        window_override: None,
        background: Some(Rgb { r: 1, g: 1, b: 1 }),
        window_theme_request: None,
        color_change: None,
        publish: false,
    };
    let mut s = switches();
    let mut c = Choices {
        accept: 1,
        completion_style: 1,
        image_fit: 1,
        image_alignment: 1,
        cursor_shape: 1,
        tabs_position: 1,
        tab_reveal: 1,
        density: 1,
        new_tab_position: 1,
        cell_width_mode: 1,
    };
    let mut f = fx();
    let defaults = LookDefaults { theme: p(8), image_fit: 3, image_alignment: 4 };
    l.reset_appearance_settings(&mut theme, &mut s, &mut c, defaults, &mut f);
    assert_eq!((l.opacity.bits, l.image_opacity.bits, l.image.clone()), (OPAQUE, IMAGE_OPACITY, None));
    assert_eq!(f32::from_bits(OPAQUE), 1.0);
    assert_eq!(f32::from_bits(IMAGE_OPACITY), 0.38);
    assert_eq!((theme.theme, theme.follow_system, theme.background), (t(8), false, None));
    assert_eq!((c.image_fit, c.image_alignment, c.density), (3, 4, 1));
    assert!(!s.cover_chrome && s.blur && f.persist);
}

#[test]
fn sessions_are_resumed_and_forked() {
    let session = |title: &str, place: &str, resume: Option<&str>, fork: Option<&str>| AiSession {
        title: title.to_string(),
        place: place.to_string(),
        age: "2h".to_string(),
        project: "proj".to_string(),
        source: 3,
        source_label: "tool".to_string(),
        resume: resume.map(|s| s.to_string()),
        fork: fork.map(|s| s.to_string()),
    };
    let rows = open_ai_session_palette(
        &vec![
            session("one", "", Some("r1"), None),
            session("two", "~/x", Some("r2"), Some("f2")),
            session("three", "", None, Some("f3")),
        ],
        &mut fx(),
    );
    assert_eq!(rows.len(), 3);
    assert_eq!((rows[0].label.as_str(), rows[0].hint.as_str(), rows[0].command.as_str()), ("one", "2h", "r1"));
    assert_eq!((rows[1].hint.as_str(), rows[1].search.as_str()), ("~/x · 2h", "恢复 resume two proj tool"));
    assert_eq!((rows[2].label.as_str(), rows[2].search.as_str(), rows[2].command.as_str()), ("分叉 · two", "分叉 fork two proj tool", "f2"));
    assert_eq!(rows[2].source, 3);
}

#[test]
fn palette_knows_the_window() {
    let mut s = shells();
    let c = toggle_command_palette(&Some("/w".to_string()), &panels(), &switches(), &s, true, &mut fx());
    assert!(c.sidebar && c.panel_resize && c.new_tab_inherits_cwd);
    assert_eq!(c.cwd.as_deref(), Some("/w"));
    s.startup_directory = Some("/s".to_string());
    assert!(!toggle_command_palette(&None, &panels(), &switches(), &s, true, &mut fx()).new_tab_inherits_cwd);
    assert!(toggle_command_palette(&None, &panels(), &switches(), &s, false, &mut fx()).new_tab_inherits_cwd);
    let list = PaletteMode { open: true, picker: true, picking_default: false, picking_directory: false };
    assert!(!toggle_shell_menu(list, &mut fx()));
    assert!(toggle_shell_menu(PaletteMode { picking_default: true, ..list }, &mut fx()));
    assert!(toggle_shell_menu(PaletteMode { picker: false, ..list }, &mut fx()));
}

#[test]
fn image_is_drawn_where_one_is_set() {
    let mut l = look();
    let mut s = switches();
    assert!(l.draw_background_image(&s).is_none());
    l.image = Some(" \"\" ".to_string());
    assert!(l.draw_background_image(&s).is_none());
    l.image = Some("  \"D:\\a b.png\" ".to_string());
    let p = l.draw_background_image(&s).expect("an image");
    assert_eq!((p.path.as_str(), p.covers_chrome), ("D:\\a b.png", true));
    s.cover_chrome = false;
    assert_eq!(l.draw_background_image(&s).map(|p| p.covers_chrome), Some(false));
}

#[test]
fn list_for_a_new_tab_shows_hosts() {
    let hosts = HostState {
        saved: Vec::new(),
        pinned: vec!["box".to_string()],
        hidden: Vec::new(),
        listed: vec!["box".to_string(), "two".to_string()],
        undo: None,
        undo_bar: false,
        undo_hover: false,
        expired_credentials: Vec::new(),
    };
    let mut s = shells();
    let labels = vec![HostMark { host: "two".to_string(), mark: "Two!".to_string() }];
    let m = open_shell_menu(&hosts, &s, &labels, &Vec::new(), "os", "fid", &mut fx());
    assert_eq!((m.hosts[0].label.as_str(), m.hosts[1].label.as_str()), ("box", "Two!"));
    assert_eq!((m.hosts[1].destination.as_str(), m.hosts[1].icon.as_str()), ("two", "os"));
    assert_eq!((m.default_shell.as_str(), m.detect), ("fid", false));
    s.shell_id = Some("pwsh".to_string());
    s.detected = None;
    let d = open_default_shell_picker(&s, "fid", &mut fx());
    assert_eq!((d.rows.len(), d.default_shell.as_str(), d.detect), (1, "pwsh", true));
    assert_eq!(d.rows[0].name, "imp");
}

#[test]
fn palette_draws_what_changed() {
    let m = PaletteMode { open: true, picker: false, picking_default: true, picking_directory: true };
    assert!(m.command_palette_open() && m.command_palette_picking_default());
    assert!(!m.command_palette_picker_open());
    let mut f = fx();
    assert!(!m.palette_moved(false, &mut f) && !f.update.dirty);
    assert!(m.palette_moved(true, &mut f) && f.update.dirty);
    assert!(m.palette_edited(&mut f));
    assert!(m.palette_tab(false, &mut f) && !m.palette_tab(true, &mut f));
}

#[test]
fn lua_file_in_use_is_edited() {
    let mut f = fx();
    let paths = |first: &str| vec![first.to_string(), "/second.lua".to_string()];
    let open = |in_use, ext, default, f: &mut Fx| open_user_config_file(&in_use, ext, default, f);
    let lua = open(paths("/c/n.LUA"), Some("LUA"), Some("/d"), &mut f);
    assert_eq!(lua.as_deref(), Some("/c/n.LUA"));
    assert!(f.persist && !f.update.dirty);
    let toml = open(paths("/c/n.toml"), Some("toml"), Some("/d"), &mut f);
    assert_eq!(toml.as_deref(), Some("/d"));
    assert_eq!(open(Vec::new(), None, None, &mut f), None);
    user_config_file_opened(false, &mut f);
    assert_eq!(reveal_focused_cwd(&None, &mut f), None);
    assert!(!f.update.dirty);
    let mut g = fx();
    user_config_file_opened(true, &mut g);
    assert!(g.update.dirty && !g.persist);
    assert_eq!(reveal_focused_cwd(&Some("/w".to_string()), &mut f).as_deref(), Some("/w"));
    assert!(f.update.dirty);
}

#[test]
fn drawer_root_and_row_clicks() {
    let mut f = fx();
    choose_side_panel_directory(None, &mut f);
    choose_side_panel_directory(Some(false), &mut f);
    follow_focused_directory(false, &mut f);
    assert!(!f.redraw);
    choose_side_panel_directory(Some(true), &mut f);
    assert!(f.redraw);
    let mut f = fx();
    follow_focused_directory(true, &mut f);
    assert!(f.redraw);
    assert!(SftpState::sftp_row_downloads(true, false));
    assert!(!SftpState::sftp_row_downloads(true, true));
    assert!(!SftpState::sftp_row_downloads(false, false));
}
