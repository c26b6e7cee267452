use nebula_display::config::Platform;
use nebula_display::frame::{
    make_current, present_frame, ContextBind, FrameLayer, FrameState,
    IncrementStep, ResizeRules, WindowSystem,
};
use nebula_display::fx::Fx;
use nebula_display::motion::{
    settings_toggle_goals, toggle_goal_for, toggle_step, ToggleGoal, ToggleStart,
};
use nebula_display::update::{
    reserved_lines, DisplayUpdate, FontRequest, FrameTimer, RendererUpdate, Viewport,
};

fn grid(columns: usize, screen_lines: usize) -> Viewport {
    Viewport { columns, screen_lines }
}

fn rules() -> ResizeRules {
    ResizeRules { increments: true, draggable: true, platform: Platform::Windows }
}

fn fresh() -> FrameState {
    FrameState {
        viewport: grid(0, 0),
        pending_renderer_update: None,
        pty_resize_pending: false,
        resize_hud: None,
        resize_hud_armed: false,
    }
}

#[test]
fn pending_update_is_marked_by_every_change() {
    let mut u = DisplayUpdate::default();
    assert!(!u.dirty);
    u.set_dimensions((800, 600));
    assert!(u.dirty);
    assert_eq!(u.dimensions(), Some((800, 600)));
    let mut u = DisplayUpdate::default();
    u.set_cursor_dirty();
    assert!(u.dirty && u.cursor_dirty());
    let mut u = DisplayUpdate::default();
    u.set_terminal_colors_dirty();
    assert!(u.dirty && u.terminal_colors_dirty());
    let mut u = DisplayUpdate::default();
    assert!(u.font().is_none());
    u.set_font(FontRequest { family: "Maple".to_string(), size_bits: 7 });
    assert!(u.dirty);
    assert_eq!(u.font().map(|f| f.family.as_str()), Some("Maple"));
}

#[test]
fn lines_below_the_grid() {
    assert_eq!(reserved_lines(0, false), 0);
    assert_eq!(reserved_lines(2, true), 3);
}

#[test]
fn frame_clock_waits_for_the_next_tick() {
    let mut t = FrameTimer::new(1_000_000);
    // A new refresh rate starts the clock anew.
    assert_eq!(t.compute_timeout(2_000_000, 10_000_000), 10_000_000);
    // Three milliseconds later, seven are left to the next tick.
    assert_eq!(t.compute_timeout(5_000_000, 10_000_000), 7_000_000);
    assert_eq!(t.last_synced_timestamp, 12_000_000);
    // A frame that missed its tick is drawn at once, and the ticks keep their phase.
    assert_eq!(t.compute_timeout(47_000_000, 10_000_000), 0);
    assert_eq!(t.last_synced_timestamp, 42_000_000);
}

#[test]
fn renderer_work_is_kept_until_it_is_taken() {
    let mut f = fresh();
    let mut fx = Fx::none((800, 600));
    fx.update.set_font(FontRequest { family: "Maple".to_string(), size_bits: 0 });
    let a = f.handle_update(grid(80, 24), true, rules(), &mut fx);
    assert!(a.refresh_ui_font && a.mark_fully_damaged && a.clear_focused_match);
    assert!(a.apply_min_size);
    assert_eq!(a.increments, IncrementStep::OneCell);
    assert_eq!(a.resize_damage, Some(grid(80, 24)));
    assert!(!fx.update.dirty && fx.update.font.is_none());
    // A later update without a resize does not lose what waits.
    let a = f.handle_update(grid(80, 24), false, rules(), &mut fx);
    assert!(!a.refresh_ui_font && !a.apply_min_size && a.resize_damage.is_none());
    assert_eq!(
        f.process_renderer_update(),
        Some(RendererUpdate { resize: true, clear_font_cache: true })
    );
    assert_eq!(f.process_renderer_update(), None);
}

#[test]
fn size_note_is_not_shown_for_the_first_grid() {
    let mut f = fresh();
    let mut fx = Fx::none((800, 600));
    f.handle_update(grid(80, 24), true, rules(), &mut fx);
    assert_eq!(f.resize_hud, None);
    assert!(f.pty_resize_pending);
    f.handle_update(grid(90, 30), true, rules(), &mut fx);
    assert_eq!(f.resize_hud, Some(grid(90, 30)));
    let mut fading = Fx::none((800, 600));
    assert_eq!(f.draw_resize_hud(true, &mut fading), Some(("90 × 30".to_string(), 7)));
    assert!(fading.redraw && !fading.update.dirty);
    let mut gone = Fx::none((800, 600));
    assert_eq!(f.draw_resize_hud(false, &mut gone), None);
    assert!(f.resize_hud.is_none() && !gone.redraw);
    assert_eq!(f.draw_resize_hud(true, &mut gone), None);
    let fixed = ResizeRules { draggable: false, ..rules() };
    let a = f.handle_update(grid(90, 30), false, fixed, &mut fx);
    assert_eq!(a.increments, IncrementStep::Clear);
    let free = ResizeRules { increments: false, ..rules() };
    let a = f.handle_update(grid(90, 30), false, free, &mut fx);
    assert_eq!(a.increments, IncrementStep::Keep);
}

#[test]
fn questions_stand_over_the_rest_of_a_frame() {
    let p = present_frame(true, true, false, WindowSystem::X11, true);
    assert_eq!(p.layers.first(), Some(&FrameLayer::InlineImages));
    assert_eq!(p.layers.last(), Some(&FrameLayer::ConfirmModal));
    assert_eq!(p.layers.len(), 12);
    assert!(p.finish_renderer && p.request_frame);
    let p = present_frame(false, false, true, WindowSystem::Wayland, true);
    assert_eq!(p.layers[0], FrameLayer::Chrome);
    assert_eq!(p.layers.last(), Some(&FrameLayer::DamageRects));
    assert_eq!(p.layers.len(), 11);
    assert!(!p.finish_renderer && !p.request_frame && !p.swap_with_damage);
    assert!(present_frame(false, false, false, WindowSystem::Wayland, true).swap_with_damage);
    assert!(!present_frame(false, false, false, WindowSystem::Wayland, false).swap_with_damage);
    assert!(!present_frame(false, false, false, WindowSystem::X11, true).swap_with_damage);
}

#[test]
fn lost_context_is_made_anew() {
    let mut fx = Fx::none((1, 1));
    assert!(!make_current(ContextBind::Current { reset: false }, &mut fx));
    assert!(!make_current(ContextBind::Bound { lost: false }, &mut fx));
    assert!(!fx.requests.reset_glyphs);
    assert!(make_current(ContextBind::Current { reset: true }, &mut fx));
    assert!(fx.requests.reset_glyphs);
    assert!(make_current(ContextBind::Bound { lost: true }, &mut fx));
}

#[test]
fn held_switch_keeps_its_side() {
    let goal = |thumb, stretched, colored, lit| ToggleGoal { thumb, stretched, colored, lit };
    assert_eq!(toggle_goal_for(true, false, false), goal(24, false, true, false));
    assert_eq!(toggle_goal_for(true, true, true), goal(16, true, true, true));
    assert_eq!(toggle_goal_for(false, true, false), goal(0, true, false, false));
    let goals = settings_toggle_goals(&vec![true, true, false], Some(1), Some(2));
    assert_eq!(goals[0], goal(24, false, true, false));
    assert_eq!(goals[1], goal(16, true, true, false));
    assert_eq!((goals[2], goals.len()), (goal(0, false, false, true), 3));
}

#[test]
fn only_what_is_headed_elsewhere_starts_anew() {
    let rest = toggle_goal_for(false, false, false);
    let times = |thumb, stretch, color, light| ToggleStart { thumb, stretch, color, light };
    assert_eq!(toggle_step(rest, rest), times(None, None, None, None));
    let lit = toggle_goal_for(false, false, true);
    assert_eq!(toggle_step(rest, lit), times(None, None, None, Some(300)));
    let held = toggle_goal_for(true, true, true);
    assert_eq!(toggle_step(rest, held), times(Some(400), Some(250), Some(300), Some(300)));
    let on = toggle_goal_for(true, false, true);
    assert_eq!(toggle_step(held, on), times(Some(400), Some(250), None, None));
}
