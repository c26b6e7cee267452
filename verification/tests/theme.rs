use nebula_display::color::Rgb;
use nebula_display::fx::Fx;
use nebula_display::theme::{
    system_theme_snapshot, NebulaTheme, SystemTheme, ThemePreference, ThemeState,
};

fn theme(id: u32) -> NebulaTheme {
    NebulaTheme { id, term_bg: Rgb { r: id as u8, g: 0, b: 0 } }
}

fn preference(id: u32) -> ThemePreference {
    ThemePreference { chosen: theme(id), light: theme(id + 1), dark: theme(id + 2) }
}

fn state(follow_system: bool) -> ThemeState {
    ThemeState {
        theme: theme(10),
        preference: preference(10),
        follow_system,
        system_theme: None,
        window_override: Some(SystemTheme::Dark),
        background: None,
        window_theme_request: None,
        color_change: None,
        publish: false,
    }
}

#[test]
fn system_theme_snapshot_beats_a_stale_window_override() {
    assert_eq!(
        system_theme_snapshot(Some(SystemTheme::Dark), Some(SystemTheme::Light)),
        Some(SystemTheme::Dark)
    );
    assert_eq!(
        system_theme_snapshot(None, Some(SystemTheme::Light)),
        Some(SystemTheme::Light)
    );
}

#[test]
fn manual_mode_only_remembers_the_system() {
    let mut t = state(false);
    let mut fx = Fx::none((1, 1));
    t.system_theme_changed(SystemTheme::Light, &mut fx);
    assert_eq!(t.system_theme, Some(SystemTheme::Light));
    assert_eq!(t.theme, theme(10));
    assert!(!fx.update.dirty);
}

#[test]
fn automatic_mode_takes_the_form_for_the_system() {
    let mut t = state(true);
    let mut fx = Fx::none((1, 1));
    t.sync_system_theme(None, &mut fx);
    assert!(!fx.update.dirty);
    t.sync_system_theme(Some(SystemTheme::Light), &mut fx);
    assert_eq!(t.theme, theme(11));
    assert_eq!(t.background, Some(theme(11).term_bg));
    assert_eq!(t.color_change, Some((theme(10).term_bg, theme(11).term_bg)));
    assert!(t.publish && fx.update.terminal_colors_dirty());
    t.system_theme_changed(SystemTheme::Dark, &mut fx);
    assert_eq!(t.theme, theme(12));
}

#[test]
fn leaving_automatic_mode_brings_the_choice_back() {
    let mut t = state(false);
    let mut fx = Fx::none((1, 1));
    t.toggle_system_theme_following(Some(SystemTheme::Dark), &mut fx);
    assert!(t.follow_system);
    assert_eq!(t.theme, theme(12));
    assert_eq!(t.window_theme_request, Some(None));
    assert!(fx.persist);
    t.toggle_system_theme_following(None, &mut fx);
    assert_eq!(t.theme, theme(10));
    assert_eq!(t.window_theme_request, Some(Some(SystemTheme::Dark)));
}

#[test]
fn picking_a_theme_ends_automatic_mode() {
    let mut t = state(true);
    let mut fx = Fx::none((1, 1));
    t.select_nebula_theme(preference(40), &mut fx);
    assert!(!t.follow_system);
    assert_eq!(t.theme, theme(40));
    assert_eq!(t.preview_terminal_bg(), theme(40).term_bg);
    assert!(fx.persist && fx.update.terminal_colors_dirty());
    t.update_window_theme_override(None);
    assert_eq!(t.window_theme_request, Some(None));
}

#[test]
fn preview_prefers_a_custom_background() {
    let mut t = state(false);
    assert_eq!(t.preview_terminal_bg(), theme(10).term_bg);
    t.background = Some(Rgb { r: 1, g: 2, b: 3 });
    assert_eq!(t.preview_terminal_bg(), Rgb { r: 1, g: 2, b: 3 });
}
