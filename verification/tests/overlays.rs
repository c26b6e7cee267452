use nebula_display::color::{Px, Rgb};
use nebula_display::config::Platform;
use nebula_display::connect::{ConnectCards, SshStage};
use nebula_display::fx::Fx;
use nebula_display::hints::{
    GridDamage, GridPoint, HintHighlights, HintInput, HintMatch, LineDamage, PointerShape,
    ViewBounds, ViewPoint,
};
use nebula_display::ime::{
    char_at_byte, draw_hyperlink_preview, draw_line_indicator, draw_search, format_search,
    link_budget, search_text_width, Ime, Preedit,
};
use nebula_display::logos::{logo_key_for, LogoCache, Picture, AI_LOGO_ID_BASE};
use nebula_display::menus::{
    Anchor, ContextMenuHit, ContextMenuTarget, FileTreeRow, MenuState,
};
use nebula_display::modal::NebulaConfirm;
use nebula_display::tabs::{AiLogo, TabState};

fn at(bits: u32) -> Anchor {
    Anchor { x: Px { bits }, y: Px { bits } }
}

fn fx() -> Fx {
    Fx::none((1, 1))
}

fn menus() -> MenuState {
    MenuState { menu: None, selected: None, refresh_tree: false, notice: None }
}

#[test]
fn menu_of_a_tab_opens_beside_it() {
    let mut m = menus();
    let mut t = TabState::fresh();
    let mut f = fx();
    t.colors[0] = Some(Rgb { r: 1, g: 2, b: 3 });
    t.arm_tab_drag(0);
    m.open_tab_context_menu(4, None, at(9), &mut t, &mut f);
    assert!(m.menu.is_none() && t.tab_drag_armed());
    m.open_tab_context_menu(0, Some(at(5)), at(9), &mut t, &mut f);
    let menu = m.menu.expect("a menu");
    assert_eq!((menu.target, menu.anchor, menu.color), (ContextMenuTarget::Tab(0), at(5), t.colors[0]));
    assert!(!t.tab_drag_armed() && m.context_menu_interactive());
    // It stays where it is.
    m.open_tab_context_menu(0, Some(at(6)), at(9), &mut t, &mut f);
    assert_eq!(m.menu.map(|m| m.anchor), Some(at(5)));
}

#[test]
fn closing_menu_takes_no_clicks() {
    let mut m = menus();
    let mut f = fx();
    assert_eq!(m.context_menu_click(ContextMenuHit::Action(3), &mut f), ContextMenuHit::Outside);
    m.open_ssh_context_menu(1, 2, None, at(9), &mut f);
    assert_eq!(m.context_menu_hover(ContextMenuHit::Action(3), &mut f), ContextMenuHit::Action(3));
    assert_eq!(m.menu.and_then(|m| m.hover), Some(3));
    assert_eq!(m.context_menu_click(ContextMenuHit::Panel, &mut f), ContextMenuHit::Panel);
    assert!(m.context_menu_interactive());
    assert_eq!(m.context_menu_click(ContextMenuHit::Action(3), &mut f), ContextMenuHit::Action(3));
    assert!(!m.context_menu_interactive());
    m.open_ssh_context_menu(1, 2, None, at(9), &mut f);
    assert!(m.context_menu_interactive());
    m.close_context_menu(&mut f);
    assert!(!m.context_menu_interactive());
    m.open_sftp_context_menu(0, false, at(1), &mut f);
    assert!(!m.context_menu_interactive());
    m.open_sftp_context_menu(0, true, at(1), &mut f);
    assert_eq!(m.menu.map(|m| m.target), Some(ContextMenuTarget::Sftp(0)));
    m.open_sftp_panel_context_menu(true, at(1), &mut f);
    assert_eq!(m.menu.map(|m| m.target), Some(ContextMenuTarget::SftpPanel));
}

#[test]
fn parent_row_has_no_menu() {
    let row = |is_parent| FileTreeRow { path: "/x".to_string(), is_dir: true, is_parent };
    let mut m = menus();
    let mut f = fx();
    m.open_file_tree_context_menu(0, Some(row(true)), at(1), &mut f);
    assert!(m.menu.is_none());
    m.open_file_tree_context_menu(0, Some(row(false)), at(1), &mut f);
    assert_eq!(m.selected.as_deref(), Some("/x"));
    assert_eq!(MenuState::file_tree_row_path(Some(row(true))), None);
    assert_eq!(MenuState::file_tree_row_path(Some(row(false))), Some(("/x".to_string(), true)));
    let mut confirm = None;
    MenuState::request_delete_file_tree(Some(row(true)), &mut confirm, &mut f);
    assert!(confirm.is_none());
    MenuState::request_delete_file_tree(Some(row(false)), &mut confirm, &mut f);
    assert!(matches!(confirm, Some(NebulaConfirm::DeleteFileTreePath { is_dir: true, .. })));
    m.confirm_delete_file_tree(Err("locked".to_string()), &mut confirm, &mut f);
    assert_eq!(m.notice.as_deref(), Some("删除失败：locked"));
    assert!(confirm.is_none() && !m.refresh_tree);
    m.confirm_delete_file_tree(Ok(()), &mut confirm, &mut f);
    assert!(m.refresh_tree);
}

#[test]
fn logos_share_what_they_can() {
    let white = Rgb { r: 255, g: 255, b: 255 };
    let black = Rgb { r: 0, g: 0, b: 0 };
    let blue = Rgb { r: 0, g: 0, b: 200 };
    assert_eq!(logo_key_for(AiLogo::Claude, white, 16), logo_key_for(AiLogo::Claude, blue, 16));
    assert_eq!(logo_key_for(AiLogo::Grok, blue, 16).ink, black);
    assert_eq!(logo_key_for(AiLogo::Grok, Rgb { r: 200, g: 200, b: 200 }, 16).ink, white);
    assert_eq!(logo_key_for(AiLogo::OpenAi, blue, 16).ink, blue);
    let mut c = LogoCache { logos: Vec::new(), shells: Vec::new() };
    assert_eq!(c.ai_logo_pixels(AiLogo::Claude, white, 16, false), Picture::Missing);
    assert_eq!(c.ai_logo_pixels(AiLogo::Claude, white, 16, true), Picture::New(AI_LOGO_ID_BASE));
    assert_eq!(c.ai_logo_pixels(AiLogo::Claude, white, 32, true), Picture::New(AI_LOGO_ID_BASE + 1));
    assert_eq!(c.ai_logo_pixels(AiLogo::Claude, blue, 16, false), Picture::Known(AI_LOGO_ID_BASE));
    assert_eq!(c.shell_icon_pixels("bash", true), Picture::New(AI_LOGO_ID_BASE + 1000));
    assert_eq!(c.shell_icon_pixels("bash", false), Picture::Known(AI_LOGO_ID_BASE + 1000));
    assert_eq!(c.shell_icon_pixels("zsh", false), Picture::Missing);
    assert_eq!((c.logos.len(), c.shells.len()), (2, 1));
}

fn hint(line: i32) -> HintMatch {
    HintMatch {
        rule: 0,
        start: GridPoint { line, column: 2 },
        end: GridPoint { line, column: 8 },
        link: None,
    }
}

fn highlights() -> HintHighlights {
    HintHighlights { mouse: None, vi: None, mouse_age: 0, vi_age: 0, mouse_point: None }
}

fn pointer(line: i32, found: Option<HintMatch>) -> HintInput {
    HintInput {
        vi_mode: false,
        vi_match: Some(hint(9)),
        pointer_shown: true,
        over_text: true,
        selecting: false,
        mouse_match: found,
        point: GridPoint { line, column: 3 },
    }
}

#[test]
fn pointer_becomes_a_hand_over_a_link() {
    let mut h = highlights();
    let o = h.update_highlighted_hints(pointer(1, Some(hint(1))));
    assert!(o.changed && o.redraw_all);
    assert_eq!(o.pointer, Some(PointerShape::Hand));
    assert_eq!(h.vi, None);
    let o = h.update_highlighted_hints(pointer(1, Some(hint(1))));
    assert!(!o.changed && !o.redraw_all);
    // Another line of the same link: the preview is told again.
    let o = h.update_highlighted_hints(pointer(2, Some(hint(1))));
    assert!(o.changed && !o.redraw_all);
    let o = h.update_highlighted_hints(pointer(5, None));
    assert_eq!((o.changed, o.pointer, h.mouse_point), (true, Some(PointerShape::Arrow), None));
    h.update_highlighted_hints(pointer(1, Some(hint(1))));
    let o = h.update_highlighted_hints(HintInput { selecting: true, vi_mode: true, ..pointer(1, None) });
    assert!(o.changed && o.pointer.is_none());
    assert_eq!((h.mouse, h.vi), (None, Some(hint(9))));
    // The keyboard highlight goes while the pointer stays on its link.
    h.mouse = Some(hint(1));
    h.mouse_point = Some(GridPoint { line: 1, column: 3 });
    let o = h.update_highlighted_hints(pointer(1, Some(hint(1))));
    assert!(o.changed && o.redraw_all && h.vi.is_none());
}

#[test]
fn changed_cells_end_a_highlight_after_its_first_frame() {
    let damage = |line, left, right| GridDamage {
        full: false,
        lines: vec![LineDamage { line, left, right }],
        num_lines: 10,
        last_column: 79,
    };
    let here = ViewBounds {
        start: Some(ViewPoint { line: 1, column: 2 }),
        end: Some(ViewPoint { line: 1, column: 8 }),
    };
    let away = ViewBounds { start: None, end: None };
    let mut h = highlights();
    h.update_highlighted_hints(pointer(1, Some(hint(1))));
    assert!(!h.validate_hint_highlights(&damage(1, 0, 79), here, away).changed);
    assert!(!h.validate_hint_highlights(&damage(1, 9, 20), here, away).changed);
    assert!(!h.validate_hint_highlights(&damage(2, 0, 79), here, away).changed);
    assert!(h.mouse.is_some());
    let o = h.validate_hint_highlights(&damage(1, 8, 8), here, away);
    assert_eq!((o.changed, o.pointer), (true, Some(PointerShape::Arrow)));
    assert!(h.mouse.is_none());
}

#[test]
fn caret_of_a_composed_text_counts_from_its_end() {
    let chars: Vec<char> = "a目b".chars().collect();
    assert_eq!(char_at_byte(&chars, 0), 0);
    assert_eq!(char_at_byte(&chars, 4), 2);
    assert_eq!(char_at_byte(&chars, 5), 3);
    let p = Preedit::new("a目b".to_string(), Some((1, 4)));
    assert_eq!(p.cursor_end_offset, Some((3, 1)));
    assert_eq!(p.visible_part(3), ("a目b".to_string(), false));
    assert_eq!(p.visible_part(2), ("目b".to_string(), true));
    assert_eq!(Preedit::new("x".to_string(), None).cursor_end_offset, None);
    let mut ime = Ime { enabled: false, preedit: None };
    ime.set_enabled(true);
    ime.set_preedit(Some(p));
    assert!(ime.is_enabled() && ime.preedit().is_some());
    ime.set_enabled(false);
    assert!(!ime.is_enabled() && ime.preedit().is_none());
}

#[test]
fn composed_text_stays_inside_the_grid() {
    let ime = |offset| Ime {
        enabled: true,
        preedit: Some(Preedit {
            text: "abcde".to_string(),
            cursor_byte_offset: None,
            cursor_end_offset: offset,
        }),
    };
    let plan = ime(Some((3, 1))).draw_ime_preview(ViewPoint { line: 4, column: 78 }, 5, 80, 24);
    let p = plan.preview.expect("a preview");
    assert_eq!((p.start, p.end), (75, 79));
    let caret = p.caret.expect("a caret");
    assert_eq!((caret.column, caret.width, caret.hollow), (77, 2, true));
    assert!(p.damage);
    assert_eq!(plan.popup, ViewPoint { line: 4, column: 77 });
    let plan = ime(Some((0, 0))).draw_ime_preview(ViewPoint { line: 24, column: 0 }, 2, 80, 24);
    let p = plan.preview.expect("a preview");
    assert_eq!((p.start, p.end, p.popup_column, p.damage), (0, 1, 2, false));
    assert_eq!(p.caret.map(|c| c.hollow), Some(false));
    let plan = ime(None).draw_ime_preview(ViewPoint { line: 0, column: 0 }, 2, 80, 24);
    assert_eq!(plan.popup, ViewPoint { line: 0, column: 1 });
    let idle = Ime { enabled: true, preedit: None };
    let plan = idle.draw_ime_preview(ViewPoint { line: 3, column: 9 }, 0, 80, 24);
    assert_eq!((plan.popup, plan.preview), (ViewPoint { line: 3, column: 9 }, None));
}

#[test]
fn search_line_is_cut_to_the_grid() {
    assert_eq!(search_text_width(true, 20), Some(11));
    assert_eq!(search_text_width(false, 5), None);
    assert_eq!(format_search("abc", true, 20), "Search: abc ");
    assert_eq!(format_search("abc", false, 8), "Backward");
    assert_eq!(draw_search("ab", 4), "ab  ");
    assert_eq!(draw_search("abcdef", 4), "abcdef");
}

#[test]
fn line_note_gives_way_to_the_cursor() {
    let i = draw_line_indicator(3, 101, 80, None);
    assert_eq!((i.text.as_str(), i.column, i.drawn), ("[3/100]", 73, true));
    assert_eq!((i.damage.line, i.damage.left, i.damage.right), (0, i.column, 79));
    let hidden = draw_line_indicator(3, 101, 80, Some(73));
    assert!(!hidden.drawn);
    assert_eq!(hidden.damage, i.damage);
    assert!(draw_line_indicator(3, 101, 80, Some(72)).drawn);
    assert_eq!(draw_line_indicator(3, 101, 4, None).column, 0);
}

#[test]
fn link_preview_keeps_off_the_link() {
    assert_eq!(link_budget(Platform::Unix, 40), 40 - 12 - 1);
    assert_eq!(link_budget(Platform::Unix, 5), 0);
    let p = draw_hyperlink_preview("http://x", Some(ViewPoint { line: 3, column: 7 }), None, Platform::Windows, 10)
        .expect("a preview");
    assert_eq!(p.label, "http://x · Ctrl+点击");
    assert_eq!((p.line, p.column, p.first_touched, p.last_touched), (4, 7, 3, 5));
    let p = draw_hyperlink_preview("u", None, Some(ViewPoint { line: 9, column: 1 }), Platform::MacOs, 10)
        .expect("a preview");
    assert_eq!((p.line, p.last_touched), (8, 9));
    assert_eq!(p.label, "u · ⌘+点击");
    assert!(draw_hyperlink_preview("u", None, None, Platform::Unix, 10).is_none());
}

#[test]
fn broken_session_keeps_the_pane_free() {
    let mut c = ConnectCards::new(1);
    let host = || "box".to_string();
    c.ssh_connect_stage(1, host(), SshStage::Other(2));
    assert!(!c.ssh_connect_active(true));
    c.ssh_connect_stage(1, host(), SshStage::Resolve);
    c.ssh_connect_stage(2, "other".to_string(), SshStage::Resolve);
    assert!(c.ssh_connect_active(true) && !c.ssh_connect_active(false));
    assert_eq!(c.ssh_connect_destination(), Some("box".to_string()));
    assert!(c.ssh_connect_set_hover(5));
    assert!(!c.ssh_connect_set_hover(5));
    c.ssh_connect_toggle_logs();
    assert!(c.cards[&1].logs_open && !c.cards[&2].logs_open);
    assert_eq!(c.draw_ssh_connect(false, false), (false, true));
    assert_eq!(c.draw_ssh_connect(true, true), (true, false));
    c.ssh_connect_stage(1, host(), SshStage::Ready);
    c.ssh_connect_stage(1, host(), SshStage::Other(7));
    assert!(!c.ssh_connect_active(true));
    c.set_focused_pane(2);
    assert!(c.ssh_connect_active(true));
    c.forget_ssh_connect(2);
    assert!(c.cards.is_empty());
}

#[test]
fn preview_shows_the_link_under_the_pointer_first() {
    let mut h = highlights();
    assert_eq!(h.link_hint(), None);
    h.vi = Some(HintMatch { link: Some(4), ..hint(1) });
    h.mouse = Some(hint(2));
    assert_eq!(h.link_hint(), h.vi);
    h.mouse = Some(HintMatch { link: Some(5), ..hint(2) });
    assert_eq!(h.link_hint(), h.mouse);
}
