//! The grid of the window and the work that a new size makes.
use crate::config::Platform;
use crate::fx::{Fx, Requests};
use crate::text::{concat3, decimal, decimal_text, ink_cells, ink_cols, lemma_decimal_len};
use crate::update::{DisplayUpdate, RendererUpdate, Viewport};
use vstd::prelude::*;

verus! {

/// What the grid looks like and what the renderer still has to do for it.
#[derive(Clone, Copy, Debug, PartialEq, Eq, Structural)]
pub struct FrameState {
    pub viewport: Viewport,
    pub pending_renderer_update: Option<RendererUpdate>,
    pub pty_resize_pending: bool,
    pub resize_hud: Option<Viewport>,
    pub resize_hud_armed: bool,
}

/// How the window is resized: whether it is to snap to cells, whether its edges can be
/// dragged at all, and the platform.
#[derive(Clone, Copy, Debug, PartialEq, Eq, Structural)]
pub struct ResizeRules {
    pub increments: bool,
    pub draggable: bool,
    pub platform: Platform,
}

/// What is done about the steps that a window is resized in.
#[derive(Clone, Copy, Debug, PartialEq, Eq, Structural)]
pub enum IncrementStep {
    Keep,
    Clear,
    OneCell,
}

/// What a change of the grid leaves to be done. The smallest size of the window follows the
/// cells, where the platform has one.
#[derive(Clone, Copy, Debug, PartialEq, Eq, Structural)]
pub struct UpdateActions {
    pub refresh_ui_font: bool,
    pub apply_min_size: bool,
    pub increments: IncrementStep,
    pub mark_fully_damaged: bool,
    pub resize_damage: Option<Viewport>,
    pub clear_focused_match: bool,
}

/// The renderer's pending work with `resize` or `clear` added.
pub open spec fn renderer_work(
    before: Option<RendererUpdate>,
    resize: bool,
    clear: bool,
) -> Option<RendererUpdate> {
    if !resize && !clear {
        before
    } else {
        let base = match before {
            Some(u) => u,
            None => RendererUpdate { resize: false, clear_font_cache: false },
        };
        Some(
            RendererUpdate {
                resize: base.resize || resize,
                clear_font_cache: base.clear_font_cache || clear,
            },
        )
    }
}

impl FrameState {
    /// The frame state once the grid has become `grid`.
    pub open spec fn resized(self, grid: Viewport, size_changed: bool, fonts: bool) -> FrameState {
        let grid_changed = self.viewport != grid;
        FrameState {
            viewport: grid,
            pending_renderer_update: renderer_work(
                self.pending_renderer_update,
                size_changed,
                fonts,
            ),
            pty_resize_pending: self.pty_resize_pending || grid_changed,
            resize_hud: if grid_changed && self.resize_hud_armed {
                Some(grid)
            } else {
                self.resize_hud
            },
            resize_hud_armed: self.resize_hud_armed || grid_changed,
        }
    }
}

impl FrameState {
    fn resize(self, grid: Viewport, size_changed: bool, clear: bool) -> (f: FrameState)
        ensures
            f == self.resized(grid, size_changed, clear),
    {
        let grid_changed: bool = self.viewport != grid;
        let pending: Option<RendererUpdate> = if clear || size_changed {
            let base: RendererUpdate = match self.pending_renderer_update {
                Some(u) => u,
                None => RendererUpdate { resize: false, clear_font_cache: false },
            };
            Some(
                RendererUpdate {
                    resize: base.resize || size_changed,
                    clear_font_cache: base.clear_font_cache || clear,
                },
            )
        } else {
            self.pending_renderer_update
        };
        FrameState {
            viewport: grid,
            pending_renderer_update: pending,
            pty_resize_pending: self.pty_resize_pending || grid_changed,
            resize_hud: if grid_changed && self.resize_hud_armed {
                Some(grid)
            } else {
                self.resize_hud
            },
            resize_hud_armed: self.resize_hud_armed || grid_changed,
        }
    }
}

impl FrameState {
    /// Applies the pending update once the new grid is known. `size_changed` tells that
    /// any part of the window's geometry differs. The terminal process hears of a new
    /// grid later; the size note is not shown for the first grid.
    pub fn handle_update(
        &mut self,
        grid: Viewport,
        size_changed: bool,
        rules: ResizeRules,
        fx: &mut Fx,
    ) -> (a: UpdateActions)
        ensures
            ({
                let fonts = old(fx).update.font is Some;
                &&& *final(self) == old(self).resized(
                    grid,
                    size_changed,
                    fonts || old(fx).update.cursor_dirty,
                )
                &&& *final(fx) == (Fx { update: DisplayUpdate::nothing(), ..*old(fx) })
                &&& a == (UpdateActions {
                    refresh_ui_font: fonts,
                    apply_min_size: fonts && rules.platform is Windows,
                    increments: if !rules.increments {
                        IncrementStep::Keep
                    } else if rules.draggable {
                        IncrementStep::OneCell
                    } else {
                        IncrementStep::Clear
                    },
                    mark_fully_damaged: fonts,
                    resize_damage: if old(self).viewport != grid {
                        Some(grid)
                    } else {
                        None
                    },
                    clear_focused_match: size_changed,
                })
            }),
    {
        let fonts: bool = fx.update.font.is_some();
        let clear: bool = fonts || fx.update.cursor_dirty;
        fx.update = DisplayUpdate::default();
        let grid_changed: bool = self.viewport != grid;
        *self = self.resize(grid, size_changed, clear);
        UpdateActions {
            refresh_ui_font: fonts,
            apply_min_size: fonts && rules.platform == Platform::Windows,
            increments: if !rules.increments {
                IncrementStep::Keep
            } else if rules.draggable {
                IncrementStep::OneCell
            } else {
                IncrementStep::Clear
            },
            mark_fully_damaged: fonts,
            resize_damage: if grid_changed {
                Some(grid)
            } else {
                None
            },
            clear_focused_match: size_changed,
        }
    }

    /// Hands the renderer its pending work: nothing where there is none.
    pub fn process_renderer_update(&mut self) -> (u: Option<RendererUpdate>)
        ensures
            u == old(self).pending_renderer_update,
            *final(self) == (FrameState { pending_renderer_update: None, ..*old(self) }),
    {
        let u: Option<RendererUpdate> = self.pending_renderer_update;
        self.pending_renderer_update = None;
        u
    }
}

/// What a frame is put together from, from the bottom up.
#[derive(Clone, Copy, Debug, PartialEq, Eq, Structural)]
pub enum FrameLayer {
    InlineImages,
    Chrome,
    Logos,
    SshConnect,
    ResizeHud,
    ContextMenu,
    DeleteUndo,
    MessageClose,
    Toasts,
    AiFixBar,
    HostEditor,
    ConfirmModal,
    DamageRects,
}

/// The layers over the panes of a frame, from the bottom up. Pictures and logos are there
/// only where there are any, changed areas only while they are shown.
pub open spec fn frame_layers(images: bool, logos: bool, show_damage: bool) -> Seq<FrameLayer> {
    let first = if images {
        seq![FrameLayer::InlineImages, FrameLayer::Chrome]
    } else {
        seq![FrameLayer::Chrome]
    };
    let marked = if logos {
        first.push(FrameLayer::Logos)
    } else {
        first
    };
    let all = marked + seq![
        FrameLayer::SshConnect,
        FrameLayer::ResizeHud,
        FrameLayer::ContextMenu,
        FrameLayer::DeleteUndo,
        FrameLayer::MessageClose,
        FrameLayer::Toasts,
        FrameLayer::AiFixBar,
        FrameLayer::HostEditor,
        FrameLayer::ConfirmModal,
    ];
    if show_damage {
        all.push(FrameLayer::DamageRects)
    } else {
        all
    }
}

/// The window system that a frame is shown with.
#[derive(Clone, Copy, Debug, PartialEq, Eq, Structural)]
pub enum WindowSystem {
    X11,
    Wayland,
    Other,
}

/// What presenting a frame takes: its layers, telling the window system what changed,
/// waiting for the renderer afterwards, and asking for the next frame.
#[derive(Debug)]
pub struct FramePlan {
    pub layers: Vec<FrameLayer>,
    pub swap_with_damage: bool,
    pub finish_renderer: bool,
    pub request_frame: bool,
}

/// Plans the presentation of a frame. On X11 a swap does not wait, so the renderer is
/// waited for; Wayland asks for the next frame itself, and where its surface can it hears
/// what changed, unless changed areas are shown.
pub fn present_frame(
    images: bool,
    logos: bool,
    show_damage: bool,
    system: WindowSystem,
    egl: bool,
) -> (p: FramePlan)
    ensures
        p.layers@ == frame_layers(images, logos, show_damage),
        p.swap_with_damage == (system is Wayland && egl && !show_damage),
        p.finish_renderer == (system is X11),
        p.request_frame == !(system is Wayland),
{
    let mut layers: Vec<FrameLayer> = Vec::new();
    if images {
        layers.push(FrameLayer::InlineImages);
    }
    layers.push(FrameLayer::Chrome);
    if logos {
        layers.push(FrameLayer::Logos);
    }
    layers.push(FrameLayer::SshConnect);
    layers.push(FrameLayer::ResizeHud);
    layers.push(FrameLayer::ContextMenu);
    layers.push(FrameLayer::DeleteUndo);
    layers.push(FrameLayer::MessageClose);
    layers.push(FrameLayer::Toasts);
    layers.push(FrameLayer::AiFixBar);
    layers.push(FrameLayer::HostEditor);
    layers.push(FrameLayer::ConfirmModal);
    if show_damage {
        layers.push(FrameLayer::DamageRects);
    }
    proof {
        assert(layers@ =~= frame_layers(images, logos, show_damage));
    }
    FramePlan {
        layers,
        swap_with_damage: system == WindowSystem::Wayland && egl && !show_damage,
        finish_renderer: system == WindowSystem::X11,
        request_frame: system != WindowSystem::Wayland,
    }
}

/// How binding the graphics context of a window went.
#[derive(Clone, Copy, Debug, PartialEq, Eq, Structural)]
pub enum ContextBind {
    /// It was bound already; `reset` tells that the graphics card was reset meanwhile.
    Current { reset: bool },
    /// It was bound now; `lost` tells that it is gone for good.
    Bound { lost: bool },
}

/// Whether a context is gone, so that it has to be made anew with everything in it.
pub open spec fn context_lost(bind: ContextBind) -> bool {
    match bind {
        ContextBind::Current { reset } => reset,
        ContextBind::Bound { lost } => lost,
    }
}

/// Decides whether the graphics context has to be made anew. Prepared glyphs are gone with
/// the old one. The result tells whether it has to be, and everything be drawn.
pub fn make_current(bind: ContextBind, fx: &mut Fx) -> (recover: bool)
    ensures
        recover == context_lost(bind),
        *final(fx) == (if recover {
            old(fx).asking(Requests { reset_glyphs: true, ..old(fx).requests })
        } else {
            *old(fx)
        }),
{
    let recover: bool = match bind {
        ContextBind::Current { reset } => reset,
        ContextBind::Bound { lost } => lost,
    };
    if recover {
        fx.ask(Requests { reset_glyphs: true, ..fx.requests });
    }
    recover
}

/// A question stands over everything else of a frame.
pub proof fn questions_are_on_top(images: bool, logos: bool, i: int)
    requires
        0 <= i < frame_layers(images, logos, false).len(),
    ensures
        frame_layers(images, logos, false).last() == FrameLayer::ConfirmModal,
        frame_layers(images, logos, false)[i] == FrameLayer::ConfirmModal ==> i == frame_layers(
            images,
            logos,
            false,
        ).len() - 1,
{
}

/// What the note about the size of the grid says.
pub open spec fn hud_text(grid: Viewport) -> Seq<char> {
    decimal_text(grid.columns as nat) + " × "@ + decimal_text(grid.screen_lines as nat)
}

impl FrameState {
    /// Draws the note that flashes the size of the grid, with the columns that it takes.
    /// `fading` tells that it is still fading out: frames go on until it is gone, and then
    /// it is dropped.
    pub fn draw_resize_hud(&mut self, fading: bool, fx: &mut Fx) -> (r: Option<(String, usize)>)
        ensures
            match old(self).resize_hud {
                Some(grid) if fading => {
                    &&& r matches Some((text, cols)) && text@ == hud_text(grid) && cols
                        == ink_cells(text@)
                    &&& *final(self) == *old(self)
                    &&& *final(fx) == old(fx).redrawn()
                },
                _ => {
                    &&& r is None
                    &&& *final(self) == (FrameState { resize_hud: None, ..*old(self) })
                    &&& *final(fx) == *old(fx)
                },
            },
    {
        let grid: Viewport = match self.resize_hud {
            Some(grid) => grid,
            None => {
                return None;
            },
        };
        if !fading {
            self.resize_hud = None;
            return None;
        }
        let text = resize_hud_text(grid);
        let cols: usize = ink_cols(text.as_str());
        fx.redraw = true;
        Some((text, cols))
    }
}

/// The note that flashes the size of the grid.
fn resize_hud_text(grid: Viewport) -> (s: String)
    ensures
        s@ == hud_text(grid),
        s@.len() <= 64,
{
    proof {
        lemma_decimal_len(grid.columns as u64);
        lemma_decimal_len(grid.screen_lines as u64);
        reveal_strlit(" × ");
    }
    concat3(
        decimal(grid.columns as u64).as_str(),
        " × ",
        decimal(grid.screen_lines as u64).as_str(),
    )
}

/// Until the renderer takes it, pending work is never lost by a further update.
pub proof fn renderer_work_accumulates(f: FrameState, grid: Viewport, size_changed: bool, fonts: bool)
    ensures
        f.pending_renderer_update matches Some(u) ==> {
            &&& f.resized(grid, size_changed, fonts).pending_renderer_update is Some
            &&& u.resize ==> f.resized(grid, size_changed, fonts).pending_renderer_update->0.resize
            &&& u.clear_font_cache ==> f.resized(
                grid,
                size_changed,
                fonts,
            ).pending_renderer_update->0.clear_font_cache
        },
{
}

/// The note that flashes the grid's size never shows for the first grid, and shows for
/// every later one that differs.
pub proof fn first_grid_shows_no_hud(f: FrameState, a: Viewport, b: Viewport)
    requires
        !f.resize_hud_armed,
        f.resize_hud is None,
        f.viewport != a,
        a != b,
    ensures
        f.resized(a, true, false).resize_hud is None,
        f.resized(a, true, false).resized(b, true, false).resize_hud == Some(b),
{
}

/// The height of a layer over the panes: what is higher covers what is lower.
pub open spec fn layer_height(l: FrameLayer) -> int {
    match l {
        FrameLayer::InlineImages => 0,
        FrameLayer::Chrome => 1,
        FrameLayer::Logos => 2,
        FrameLayer::SshConnect => 3,
        FrameLayer::ResizeHud => 4,
        FrameLayer::ContextMenu => 5,
        FrameLayer::DeleteUndo => 6,
        FrameLayer::MessageClose => 7,
        FrameLayer::Toasts => 8,
        FrameLayer::AiFixBar => 9,
        FrameLayer::HostEditor => 10,
        FrameLayer::ConfirmModal => 11,
        FrameLayer::DamageRects => 12,
    }
}

/// The layers of a frame are painted from the lowest to the highest, each once. Pictures,
/// logos and changed areas are among them where there are any; the others always.
pub proof fn layers_are_painted_upwards(images: bool, logos: bool, show_damage: bool)
    ensures
        ({
            let all = frame_layers(images, logos, show_damage);
            &&& forall|i: int, j: int|
                0 <= i < j < all.len() ==> layer_height(#[trigger] all[i]) < layer_height(
                    #[trigger] all[j],
                )
            &&& forall|l: FrameLayer| #[trigger]
                all.contains(l) <==> match l {
                    FrameLayer::InlineImages => images,
                    FrameLayer::Logos => logos,
                    FrameLayer::DamageRects => show_damage,
                    _ => true,
                }
        }),
{
    let all = frame_layers(images, logos, show_damage);
    let base = (if images {
        1int
    } else {
        0
    });
    let top = base + 1 + (if logos {
        1int
    } else {
        0
    });
    assert forall|l: FrameLayer| #[trigger] all.contains(l) <==> match l {
        FrameLayer::InlineImages => images,
        FrameLayer::Logos => logos,
        FrameLayer::DamageRects => show_damage,
        _ => true,
    } by {
        assert(all[base] == FrameLayer::Chrome);
        assert(images ==> all[0] == FrameLayer::InlineImages);
        assert(logos ==> all[base + 1] == FrameLayer::Logos);
        assert(all[top] == FrameLayer::SshConnect);
        assert(all[top + 1] == FrameLayer::ResizeHud);
        assert(all[top + 2] == FrameLayer::ContextMenu);
        assert(all[top + 3] == FrameLayer::DeleteUndo);
        assert(all[top + 4] == FrameLayer::MessageClose);
        assert(all[top + 5] == FrameLayer::Toasts);
        assert(all[top + 6] == FrameLayer::AiFixBar);
        assert(all[top + 7] == FrameLayer::HostEditor);
        assert(all[top + 8] == FrameLayer::ConfirmModal);
        assert(show_damage ==> all[top + 9] == FrameLayer::DamageRects);
    }
}

/// A new grid is taken over and told to the terminal process; the renderer is told of a new
/// size and of new fonts, and of nothing where neither came. The same grid asks for nothing.
pub proof fn new_grid_is_told(f: FrameState, grid: Viewport, size_changed: bool, fonts: bool)
    ensures
        ({
            let now = f.resized(grid, size_changed, fonts);
            &&& now.viewport == grid
            &&& now.pty_resize_pending <==> f.pty_resize_pending || f.viewport != grid
            &&& f.viewport == grid ==> now.resize_hud == f.resize_hud && now.resize_hud_armed
                == f.resize_hud_armed
            &&& f.viewport != grid ==> now.resize_hud_armed
            &&& !size_changed && !fonts ==> now.pending_renderer_update == f.pending_renderer_update
            &&& size_changed ==> now.pending_renderer_update is Some
                && now.pending_renderer_update->0.resize
            &&& fonts ==> now.pending_renderer_update is Some
                && now.pending_renderer_update->0.clear_font_cache
            &&& f.pending_renderer_update is None && now.pending_renderer_update is Some
                ==> now.pending_renderer_update->0.resize == size_changed
                && now.pending_renderer_update->0.clear_font_cache == fonts
        }),
{
}

/// Pending changes are applied once: the grid is the new one, and nothing is pending behind
/// them. A new grid is damaged anew, and new fonts damage everything.
pub proof fn pending_changes_are_applied_once(
    s: &mut FrameState,
    grid: Viewport,
    size_changed: bool,
    rules: ResizeRules,
    fx: &mut Fx,
    a: UpdateActions,
)
    requires
        call_ensures(FrameState::handle_update, (s, grid, size_changed, rules, fx), a),
    ensures
        final(s).viewport == grid,
        final(fx).update == DisplayUpdate::nothing(),
        final(fx).redraw == old(fx).redraw && final(fx).persist == old(fx).persist,
        a.resize_damage is Some <==> old(s).viewport != grid,
        a.resize_damage matches Some(g) ==> g == grid,
        a.refresh_ui_font <==> old(fx).update.font is Some,
        a.mark_fully_damaged <==> old(fx).update.font is Some,
        a.apply_min_size ==> rules.platform is Windows && old(fx).update.font is Some,
        a.clear_focused_match <==> size_changed,
        a.increments is Keep <==> !rules.increments,
        a.increments is OneCell <==> rules.increments && rules.draggable,
        old(fx).update.font is Some || old(fx).update.cursor_dirty ==> (
        final(s).pending_renderer_update matches Some(u) && u.clear_font_cache),
        final(s).pty_resize_pending <==> old(s).pty_resize_pending || old(s).viewport != grid,
{
}

/// Work for the renderer is handed over once.
pub proof fn renderer_work_is_handed_over_once(
    s: &mut FrameState,
    u: Option<RendererUpdate>,
    t: &mut FrameState,
    v: Option<RendererUpdate>,
)
    requires
        call_ensures(FrameState::process_renderer_update, (s,), u),
        call_ensures(FrameState::process_renderer_update, (t,), v),
        *t == *final(s),
    ensures
        u == old(s).pending_renderer_update,
        v is None,
        final(s).viewport == old(s).viewport && final(s).resize_hud == old(s).resize_hud,
{
}

/// A frame is presented with all of its layers; damage is told where the system takes it,
/// and the next frame is asked for where the system does not.
pub proof fn frame_is_presented_for_its_system(
    images: bool,
    logos: bool,
    show_damage: bool,
    system: WindowSystem,
    egl: bool,
    p: FramePlan,
)
    requires
        call_ensures(present_frame, (images, logos, show_damage, system, egl), p),
    ensures
        p.swap_with_damage <==> system is Wayland && egl && !show_damage,
        p.finish_renderer <==> system is X11,
        p.request_frame <==> !(system is Wayland),
        forall|i: int, j: int|
            0 <= i < j < p.layers@.len() ==> layer_height(#[trigger] p.layers@[i]) < layer_height(
                #[trigger] p.layers@[j],
            ),
        p.layers@.contains(FrameLayer::Chrome) && p.layers@.contains(FrameLayer::ConfirmModal),
        p.layers@.contains(FrameLayer::InlineImages) <==> images,
        p.layers@.contains(FrameLayer::DamageRects) <==> show_damage,
{
    layers_are_painted_upwards(images, logos, show_damage);
}

/// A lost context is made anew with new glyphs, and a context that is there is not.
pub proof fn lost_context_is_made_anew(bind: ContextBind, fx: &mut Fx, recover: bool)
    requires
        call_ensures(make_current, (bind, fx), recover),
    ensures
        bind matches ContextBind::Current { reset } ==> recover == reset,
        bind matches ContextBind::Bound { lost } ==> recover == lost,
        recover ==> final(fx).requests.reset_glyphs,
        !recover ==> *final(fx) == *old(fx),
{
}

/// The note on a new size shows columns and lines while it fades, and is gone then.
pub proof fn size_note_fades(s: &mut FrameState, fading: bool, fx: &mut Fx, r: Option<(String, usize)>)
    requires
        call_ensures(FrameState::draw_resize_hud, (s, fading, fx), r),
    ensures
        r is Some <==> fading && old(s).resize_hud is Some,
        r is Some ==> *final(s) == *old(s) && final(fx).redraw,
        r is None ==> final(s).resize_hud is None && *final(fx) == *old(fx),
        r matches Some((text, _)) ==> {
            let g = old(s).resize_hud->0;
            let c = decimal_text(g.columns as nat);
            &&& text@.take(c.len() as int) == c
            &&& text@.skip(c.len() as int + 3) == decimal_text(g.screen_lines as nat)
        },
        final(s).viewport == old(s).viewport,
{
    reveal_strlit(" × ");
    if r is Some {
        let g = old(s).resize_hud->0;
        let c = decimal_text(g.columns as nat);
        let t = hud_text(g);
        assert(t.take(c.len() as int) =~= c);
        assert(t.skip(c.len() as int + 3) =~= decimal_text(g.screen_lines as nat));
    }
}

} // verus!
