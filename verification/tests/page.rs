use nebula_display::color::{Px, Rgb};
use nebula_display::fields::TextField;
use nebula_display::fonts::{CatalogEntry, FontImport, FontPick, FontState};
use nebula_display::fx::Fx;
use nebula_display::modal::NebulaConfirm;
use nebula_display::page::{
    hex_chars, ColorState, NebulaSettingsSection, PageState, SettingsDropdown, SettingsUi, TextDrag,
};
use nebula_display::prefs::{nebula_default_cursor_style, Choices, Switches};
use nebula_display::theme::{NebulaTheme, ThemePreference, ThemeState};

fn page() -> PageState {
    PageState {
        open: true,
        special_tab: true,
        section: NebulaSettingsSection::Other(0),
        scroll: Px { bits: 5 },
        dropdown: None,
        text_drag: None,
        chrome_hover: 0,
        settings_hover: 0,
        settings_pressed: 0,
        message_close: true,
        message_close_hover: false,
    }
}

fn names(list: &[&str]) -> Vec<String> {
    list.iter().map(|s| s.to_string()).collect()
}

fn catalog(list: &[&str]) -> Vec<CatalogEntry> {
    list.iter()
        .map(|s| CatalogEntry { name: s.to_string(), monospaced: *s != "Arial" })
        .collect()
}

fn font() -> FontState {
    FontState {
        family: "Maple, Noto".to_string(),
        size_bits: 3,
        families: names(&["Maple", "Arial"]),
        proportional: Vec::new(),
        show_all: false,
        query: TextField::empty(),
        popup_scroll: 4,
        popup_drag: None,
        notice: Some("old".to_string()),
    }
}

fn ui() -> SettingsUi {
    SettingsUi {
        page: page(),
        color: ColorState {
            hex: Vec::new(),
            hex_active: true,
            palette_index: 1,
            swatches: vec![Rgb { r: 1, g: 1, b: 1 }, Rgb { r: 2, g: 2, b: 2 }],
            picker_drag: false,
        },
        font: font(),
    }
}

fn theme() -> ThemeState {
    let t = NebulaTheme { id: 1, term_bg: Rgb { r: 9, g: 9, b: 9 } };
    ThemeState {
        theme: t,
        preference: ThemePreference { chosen: t, light: t, dark: t },
        follow_system: false,
        system_theme: None,
        window_override: None,
        background: None,
        window_theme_request: None,
        color_change: None,
        publish: false,
    }
}

fn fx() -> Fx {
    Fx::none((800, 600))
}

fn hex(u: &ColorState) -> String {
    u.hex.iter().collect()
}

#[test]
fn colors_are_written_in_hex() {
    assert_eq!(hex_chars(Rgb { r: 0, g: 0xa5, b: 0xff }), "#00A5FF".chars().collect::<Vec<_>>());
}

#[test]
fn another_section_starts_at_its_top() {
    let mut p = page();
    assert!(!p.turn_to(NebulaSettingsSection::Other(0)));
    assert_eq!(p.scroll, Px { bits: 5 });
    assert!(p.turn_to(NebulaSettingsSection::Proxy));
    assert_eq!((p.settings_section(), p.scroll), (NebulaSettingsSection::Proxy, Px { bits: 0 }));
    p.close();
    assert!(!p.settings_open());
    p.open_at_top();
    assert!(p.settings_open());
}

#[test]
fn closed_page_does_not_scroll() {
    let mut p = page();
    let mut f = fx();
    p.settings_scroll_by(Px { bits: 8 }, false, &mut f);
    assert_eq!((p.scroll, f.redraw), (Px { bits: 5 }, false));
    p.settings_scroll_by(Px { bits: 8 }, true, &mut f);
    assert_eq!((p.scroll, f.redraw), (Px { bits: 8 }, true));
    p.open = false;
    p.settings_scroll_by(Px { bits: 9 }, true, &mut f);
    assert_eq!(p.scroll, Px { bits: 8 });
}

#[test]
fn hover_marks_only_changes() {
    let mut p = page();
    let mut f = fx();
    p.set_chrome_hover(0, 0, &mut f);
    p.set_settings_pressed(0, &mut f);
    p.set_message_close_hover(false, &mut f);
    assert!(!f.update.dirty);
    p.set_chrome_hover(0, 7, &mut f);
    assert!(f.update.dirty && !f.redraw);
    p.set_settings_pressed(7, &mut f);
    assert!(f.redraw);
}

#[test]
fn message_bar_button_shows_over_terminals_only() {
    let mut p = page();
    assert_eq!(p.draw_message_close(), None);
    p.special_tab = false;
    assert_eq!(p.draw_message_close(), Some(28));
    p.message_close_hover = true;
    assert_eq!(p.draw_message_close(), Some(64));
    p.message_close = false;
    assert_eq!(p.draw_message_close(), None);
}

#[test]
fn swatches_go_round() {
    let mut u = ui();
    let mut t = theme();
    let mut f = fx();
    u.color.cycle_background_color(&mut t, &mut f);
    assert_eq!((u.color.palette_index, t.background), (0, Some(Rgb { r: 1, g: 1, b: 1 })));
    assert!(f.persist);
}

#[test]
fn palette_drag_is_written_down_at_its_end() {
    let mut u = ui();
    let mut t = theme();
    let mut f = fx();
    assert!(!u.color.update_bg_picker_drag(Rgb { r: 1, g: 2, b: 3 }, &mut t, &mut f));
    u.color.begin_bg_picker_drag(Rgb { r: 1, g: 2, b: 3 }, &mut t, &mut f);
    assert!(u.color.update_bg_picker_drag(Rgb { r: 4, g: 5, b: 6 }, &mut t, &mut f));
    assert_eq!(hex(&u.color), "#040506");
    assert_eq!(t.background, Some(Rgb { r: 4, g: 5, b: 6 }));
    assert!(!f.persist);
    assert!(u.color.finish_bg_picker_drag(&mut f));
    assert!(f.persist);
    assert!(!u.color.finish_bg_picker_drag(&mut f));
}

#[test]
fn color_field_takes_hex_digits_only() {
    let mut u = ui();
    let mut f = fx();
    u.color.focus_bg_hex_input(&mut f);
    for c in "#12gG aBcDeF".chars() {
        u.color.bg_hex_push(c, &mut f);
    }
    assert_eq!(hex(&u.color), "#12aBcD");
    u.color.bg_hex_backspace(&mut f);
    assert_eq!(u.color.bg_hex_text(), "#12aBc");
    let mut t = theme();
    assert!(!u.bg_hex_commit(None, &mut t, &mut f));
    assert!(!f.persist);
    assert!(u.bg_hex_commit(Some(Rgb { r: 1, g: 0, b: 0 }), &mut t, &mut f));
    assert_eq!(t.background, Some(Rgb { r: 1, g: 0, b: 0 }));
    assert!(f.persist);
}

#[test]
fn one_list_is_open_at_a_time() {
    let mut u = ui();
    let mut f = fx();
    u.toggle_settings_dropdown(SettingsDropdown::Other(3), &mut f);
    u.toggle_shell_picker(&mut f);
    assert_eq!(u.page.dropdown, Some(SettingsDropdown::Shell));
    assert!(f.requests.detect_shells && !f.requests.rebuild_fonts);
    u.toggle_font_picker(&mut f);
    assert_eq!(u.page.dropdown, Some(SettingsDropdown::Font));
    assert_eq!((u.font.popup_scroll, u.font.notice.clone()), (0, None));
    assert!(f.requests.rebuild_fonts);
    u.toggle_font_picker(&mut f);
    assert_eq!(u.page.dropdown, None);
    assert!(!u.close_settings_dropdown(&mut f));
}

#[test]
fn closing_the_font_list_ends_its_search() {
    let mut u = ui();
    let mut f = fx();
    u.toggle_font_picker(&mut f);
    u.font.font_query_edit(Some("map"), &mut f);
    f = fx();
    u.close_shell_picker(&mut f);
    assert_eq!(u.page.dropdown, Some(SettingsDropdown::Font));
    u.close_font_picker(&mut f);
    assert!(u.font.query.text.is_empty() && u.page.dropdown.is_none());
    assert!(f.requests.rebuild_fonts && f.requests.refresh_ime);
    assert!(!u.color.hex_active);
}

#[test]
fn turning_to_a_section_closes_the_pickers() {
    let mut u = ui();
    let mut f = fx();
    u.toggle_shell_picker(&mut f);
    u.turn_to(NebulaSettingsSection::Providers, &mut f);
    assert_eq!(u.page.dropdown, None);
    u.toggle_settings_dropdown(SettingsDropdown::Other(1), &mut f);
    u.turn_to(NebulaSettingsSection::Proxy, &mut f);
    assert_eq!(u.page.dropdown, Some(SettingsDropdown::Other(1)));
}

#[test]
fn color_list_shows_the_color_in_use() {
    let mut u = ui();
    let mut t = theme();
    let mut f = fx();
    u.open_background_color_picker(Rgb { r: 16, g: 0, b: 0 }, &t, &mut f);
    assert_eq!(hex(&u.color), "#100000");
    assert_eq!(u.page.dropdown, Some(SettingsDropdown::BackgroundColor));
    u.set_background_color_option(0, &mut t, &mut f);
    assert_eq!(t.background, Some(Rgb { r: 1, g: 1, b: 1 }));
    assert!(u.page.dropdown.is_none() && f.persist);
    f = fx();
    u.set_background_color_option(9, &mut t, &mut f);
    assert!(!f.persist && f.update.dirty);
}

#[test]
fn font_search_drag_selects() {
    let mut u = ui();
    let mut f = fx();
    u.font.font_query_edit(Some("mono"), &mut f);
    u.begin_font_query_drag(1, false, &mut f);
    assert_eq!(u.page.text_drag, Some(TextDrag::Font));
    u.font.font_query_place(3, true, &mut f);
    assert_eq!(u.font.font_query_selected_text(), Some("on".to_string()));
    assert!(u.page.end_settings_text_drag());
    assert!(!u.page.end_settings_text_drag());
}

#[test]
fn special_pages_have_no_message_bar() {
    let mut u = ui();
    u.show_special();
    assert!(u.page.special_tab && !u.page.message_close);
    u.leave_special();
    assert!(!u.page.special_tab && !u.page.open);
    u.open();
    assert_eq!(u.page.settings_scroll(), Px { bits: 0 });
    u.close();
    assert!(!u.page.open);
}

#[test]
fn catalog_starts_with_the_required_family() {
    let mut s = font();
    s.rebuild_font_catalog(&catalog(&["Arial", "Maple", "Zed"]), "Maple", "Custom");
    assert_eq!(s.proportional, ["arial"]);
    assert_eq!(s.families, ["Maple", "Arial", "Zed", "Custom"]);
    assert_eq!((s.font_popup_scroll(), s.font_query().as_str()), (0, ""));
    assert_eq!(s.font_picker_count(), 6);
    s.rebuild_font_catalog(&catalog(&["Arial"]), "Maple", "Arial");
    assert_eq!(s.families, ["Maple", "Arial"]);
}

#[test]
fn imported_families_are_sorted_without_case() {
    let mut s = font();
    s.add_imported_families(&names(&["zed", "Beta", "alpha", "Beta", "Maple"]));
    assert_eq!(s.families, ["Maple", "alpha", "Arial", "Beta", "zed"]);
}

#[test]
fn import_takes_the_first_family() {
    let mut u = ui();
    let mut f = fx();
    u.page.dropdown = Some(SettingsDropdown::Font);
    let chain = names(&["Maple", "Noto"]);
    let added = FontImport::Added(names(&["Zed", "Beta"]));
    u.finish_font_import(added, true, &chain, &mut f);
    assert_eq!(u.font.families, ["Maple", "Arial", "Beta", "Zed"]);
    assert_eq!(u.font.family, "Zed, Noto");
    assert!(u.page.dropdown.is_none() && f.persist);
    let mut f = fx();
    u.finish_font_import(FontImport::Refused("full".to_string()), true, &chain, &mut f);
    assert_eq!(u.font.notice, Some("full".to_string()));
    u.finish_font_import(FontImport::Broken("odd".to_string()), true, &chain, &mut f);
    assert_eq!(u.font.notice, Some("字体无法加载：odd".to_string()));
    assert!(!f.persist && f.update.dirty && !f.redraw);
    u.finish_font_import(FontImport::Added(Vec::new()), true, &chain, &mut f);
    assert_eq!(u.font.family, "Zed, Noto");
    u.finish_font_import(FontImport::Added(names(&["Beta"])), false, &chain, &mut f);
    assert_eq!(u.font.notice, Some("字体无法加载：Beta".to_string()));
}

#[test]
fn picked_family_keeps_the_fallbacks() {
    let mut u = ui();
    let mut f = fx();
    u.page.dropdown = Some(SettingsDropdown::Font);
    let chain = names(&["Maple", "Noto", "Arial"]);
    assert_eq!(u.set_terminal_font_by_index(1, true, &chain, &mut f), FontPick::Family);
    assert_eq!(u.font.family, "Arial, Noto");
    assert_eq!(f.update.font().map(|r| r.family.as_str()), Some("Arial, Noto"));
    assert_eq!(u.font.effective_font().size_bits, 3);
    assert!(u.page.dropdown.is_none() && f.persist);
    assert_eq!(u.set_terminal_font_by_index(0, false, &chain, &mut f), FontPick::Family);
    assert_eq!(u.font.notice, Some("字体无法加载：Maple".to_string()));
    assert_eq!(u.font.family, "Arial, Noto");
    assert_eq!(u.set_terminal_font_by_index(2, true, &chain, &mut f), FontPick::ShowAll);
    assert!(u.font.font_show_all());
    assert_eq!(u.set_terminal_font_by_index(3, true, &chain, &mut f), FontPick::Import);
    assert_eq!(u.set_terminal_font_by_index(4, true, &chain, &mut f), FontPick::Nothing);
}

#[test]
fn another_scale_asks_for_the_font_again() {
    let mut s = font();
    let mut f = fx();
    s.apply_scale_factor_change(false, 9, &mut f);
    assert!(f.update.font().is_none());
    s.apply_scale_factor_change(true, 9, &mut f);
    assert_eq!(f.update.font().map(|r| r.size_bits), Some(9));
    assert_eq!(s.size_bits, 9);
}

#[test]
fn font_list_scrolls_by_whole_rows() {
    let mut s = font();
    let mut f = fx();
    assert!(s.font_popup_scroll_by(99, 20, &mut f));
    assert_eq!(s.popup_scroll, 12);
    assert!(!s.font_popup_scroll_by(1, 20, &mut f));
    assert!(s.font_popup_scroll_by(-99, 20, &mut f));
    assert_eq!(s.popup_scroll, 0);
    assert!(!s.font_popup_scroll_by(5, 8, &mut f));
    assert!(!s.font_popup_scrollbar_drag_to(Some(3), &mut f));
    assert!(!s.font_popup_scrollbar_press(None, &mut f));
    assert!(s.font_popup_scrollbar_press(Some((Px { bits: 1 }, 2)), &mut f));
    assert!(s.font_popup_scrollbar_dragging());
    assert!(s.font_popup_scrollbar_drag_to(Some(3), &mut f));
    assert_eq!(s.popup_scroll, 3);
    assert!(s.end_font_popup_scrollbar_drag());
    assert!(!s.end_font_popup_scrollbar_drag());
}

#[test]
fn font_search_is_a_text_field() {
    let mut s = font();
    let mut f = fx();
    s.font_query_edit(Some("\n"), &mut f);
    assert!(!f.requests.rebuild_fonts);
    s.font_query_edit(Some("ab"), &mut f);
    s.font_query_move(false, false, &mut f);
    s.font_query_delete_forward(&mut f);
    assert_eq!(s.query.text, vec!['a']);
    s.font_query_jump(false, false, &mut f);
    s.font_query_edit(None, &mut f);
    assert_eq!(s.query.text, vec!['a']);
    s.font_query_select_all(&mut f);
    s.font_query_edit(None, &mut f);
    assert!(s.query.text.is_empty());
    assert!(f.requests.rebuild_fonts && f.requests.refresh_ime);
    s.toggle_font_show_all(&mut f);
    assert!(s.font_show_all());
}

fn switches() -> Switches {
    Switches {
        suggestions: false,
        fetch: false,
        powerline: false,
        blur: false,
        keep_session: false,
        restore_session: false,
        resume_ai: false,
        tray: false,
        cover_chrome: false,
        cursor_blink: false,
        copy_on_select: false,
        cjk_bold_regular: false,
        panel_resize: false,
    }
}

fn choices() -> Choices {
    Choices {
        accept: 0,
        completion_style: 0,
        image_fit: 0,
        image_alignment: 0,
        cursor_shape: 0,
        tabs_position: 0,
        tab_reveal: 0,
        density: 0,
        new_tab_position: 0,
        cell_width_mode: 0,
    }
}

#[test]
fn switches_flip_and_are_saved() {
    let mut s = switches();
    let mut f = fx();
    s.toggle_ghost(&mut f);
    s.toggle_cursor_blink(&mut f);
    s.toggle_copy_on_select(&mut f);
    s.toggle_fetch(&mut f);
    s.toggle_powerline(&mut f);
    s.toggle_keep_session(&mut f);
    s.toggle_restore_session(&mut f);
    s.toggle_resume_ai(&mut f);
    assert!(s.suggestions && s.cursor_blink && s.copy_on_select && s.fetch);
    assert!(s.powerline && s.keep_session && s.restore_session && s.resume_ai);
    assert!(f.persist && f.update.dirty);
    s.toggle_blur(&mut f);
    s.toggle_tray(&mut f);
    s.toggle_cjk_bold_regular(&mut f);
    assert_eq!((f.requests.set_blur, f.requests.set_tray), (Some(true), Some(true)));
    assert!(f.requests.reset_glyphs);
    s.toggle_blur(&mut f);
    assert_eq!(f.requests.set_blur, Some(false));
}

#[test]
fn some_switches_ask_before_they_go_on() {
    let mut s = switches();
    let mut f = fx();
    let mut confirm = None;
    s.request_toggle_panel_resize(&mut confirm, &mut f);
    assert!(matches!(confirm, Some(NebulaConfirm::EnablePanelResize)));
    assert!(!s.panel_resize && !f.persist);
    s.confirm_panel_resize(&mut confirm, &mut f);
    assert!(s.panel_resize && f.persist && confirm.is_none());
    s.request_toggle_panel_resize(&mut confirm, &mut f);
    assert!(!s.panel_resize && confirm.is_none());
    s.request_toggle_background_image_cover_chrome(&mut confirm, &mut f);
    assert!(matches!(confirm, Some(NebulaConfirm::EnableBackgroundImageCoverChrome)));
    s.confirm_background_image_cover_chrome(&mut confirm, &mut f);
    assert!(s.cover_chrome);
    s.request_toggle_background_image_cover_chrome(&mut confirm, &mut f);
    assert!(!s.cover_chrome && confirm.is_none());
}

#[test]
fn picking_an_entry_closes_the_list() {
    let mut c = choices();
    let mut p = page();
    let mut f = fx();
    p.dropdown = Some(SettingsDropdown::Other(2));
    c.set_completion_style_option(None, &mut p, &mut f);
    assert!(p.dropdown.is_none() && !f.persist);
    c.set_completion_style_option(Some(1), &mut p, &mut f);
    c.set_background_image_fit_option(Some(2), &mut p, &mut f);
    c.set_background_image_alignment_option(Some(3), &mut p, &mut f);
    c.set_accept_option(Some(4), &mut p, &mut f);
    c.set_tab_reveal_option(Some(5), &mut p, &mut f);
    c.set_new_tab_position_option(Some(6), &mut p, &mut f);
    assert_eq!((c.completion_style, c.image_fit, c.image_alignment), (1, 2, 3));
    assert_eq!((c.accept, c.tab_reveal, c.new_tab_position), (4, 5, 6));
    assert!(f.persist);
    c.cycle_accept(7, &mut f);
    c.cycle_completion_style(8, &mut f);
    assert_eq!((c.accept, c.completion_style), (7, 8));
}

#[test]
fn density_and_cell_width_lay_the_grid_out_again() {
    let mut c = choices();
    let mut p = page();
    let mut f = fx();
    c.set_density_option(Some(0), &mut p, &mut f);
    assert!(f.update.dimensions().is_none() && f.redraw);
    c.set_density_option(Some(2), &mut p, &mut f);
    assert_eq!(f.update.dimensions(), Some((800, 600)));
    let mut f = fx();
    c.set_cell_width_mode_option(Some(0), &font(), &mut p, &mut f);
    assert!(f.update.font().is_none());
    c.set_cell_width_mode_option(Some(1), &font(), &mut p, &mut f);
    assert_eq!(f.update.font().map(|r| r.family.as_str()), Some("Maple, Noto"));
    assert!(f.persist);
    assert!(!c.set_cursor_shape_option(Some(0), &mut p, &mut f));
    assert!(c.set_cursor_shape_option(Some(3), &mut p, &mut f));
    let mut s = switches();
    s.cursor_blink = true;
    assert_eq!(nebula_default_cursor_style(&c, &s), (3, true));
}
