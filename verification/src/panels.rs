//! The sidebar and the drawer: folding, dragging their edges, scrolling, and what the
//! drawer shows.
use crate::color::Px;
use crate::fx::Fx;
use crate::modal::NebulaConfirm;
use crate::text::same_text;
use vstd::prelude::*;

verus! {

/// Shortest time between two layouts of the grid while an edge is dragged, in
/// milliseconds.
pub const PANEL_DRAG_REFLOW_MS: u64 = 80;

/// An edge that can be dragged.
#[derive(Clone, Copy, Debug, PartialEq, Eq, Structural)]
pub enum PanelDragKind {
    SidebarWidth,
    DrawerWidth,
    HostsBand,
}

/// A drag of an edge: where it leads, and when the grid was laid out last.
#[derive(Clone, Copy, Debug, PartialEq, Eq, Structural)]
pub struct PanelDrag {
    pub kind: PanelDragKind,
    pub target: Px,
    pub last_apply: u64,
    pub anchor: Px,
}

/// What the pointer asks of a dragged edge: to fold the panel away, or a new place, with
/// whether it differs from the last one and is a cell away from the applied one.
#[derive(Clone, Copy, Debug, PartialEq, Eq, Structural)]
pub struct PanelMotion {
    pub collapses: bool,
    pub target: Px,
    pub differs: bool,
    pub crosses_cell: bool,
    pub now: u64,
}

/// The panels beside the grid. The drawer has a search field and one for a commit message.
#[derive(Clone, Copy, Debug, PartialEq, Eq, Structural)]
pub struct PanelState {
    pub sidebar_collapsed: bool,
    pub drawer_open: bool,
    pub drawer_view: u8,
    pub search_focus: bool,
    pub commit_focus: bool,
    pub sidebar_w: Px,
    pub drawer_w: Px,
    pub hosts_band: Px,
    pub drag: Option<PanelDrag>,
}

/// The drawer with the local files: whether it is open, its view, and whether one of its
/// fields has the keyboard.
#[derive(Clone, Copy, Debug, PartialEq, Eq, Structural)]
pub struct Drawer {
    pub open: bool,
    pub view: u8,
    pub search_focus: bool,
    pub commit_focus: bool,
}

/// Where the pointer meets an edge, as far as pixels tell. `settled` tells that no fold
/// animation runs.
#[derive(Clone, Copy, Debug, PartialEq, Eq, Structural)]
pub struct EdgeHits {
    pub drawer_visible: bool,
    pub drawer_settled: bool,
    pub on_drawer_edge: bool,
    pub sidebar_visible: bool,
    pub sidebar_settled: bool,
    pub sidebar_has_width: bool,
    pub on_sidebar_edge: bool,
    pub hosts_open: bool,
    pub on_hosts_edge: bool,
}

impl PanelState {
    /// Folds the sidebar in or out, which lays the grid out again.
    pub fn toggle_sidebar(&mut self, fx: &mut Fx)
        ensures
            *final(self) == (PanelState {
                sidebar_collapsed: !old(self).sidebar_collapsed,
                ..*old(self)
            }),
            *final(fx) == old(fx).reflowed().redrawn(),
    {
        self.sidebar_collapsed = !self.sidebar_collapsed;
        fx.reflow();
        fx.touch();
    }

    /// This state with the drawer closed and none of its fields focused.
    pub open spec fn shut(self) -> PanelState {
        if self.drawer_open {
            PanelState { drawer_open: false, search_focus: false, commit_focus: false, ..self }
        } else {
            self
        }
    }

    /// What closing the drawer asks for.
    pub open spec fn shut_fx(self, fx: Fx) -> Fx {
        if self.drawer_open {
            fx.reflowed().touched()
        } else {
            fx
        }
    }

    /// Closes the drawer.
    pub fn close_drawer(&mut self, fx: &mut Fx)
        ensures
            *final(self) == old(self).shut(),
            *final(fx) == old(self).shut_fx(*old(fx)),
    {
        if !self.drawer_open {
            return;
        }
        self.search_focus = false;
        self.commit_focus = false;
        self.drawer_open = false;
        fx.reflow();
        fx.touch();
    }

    /// The width that the sidebar is drawn with: a drag leads it.
    pub open spec fn sidebar_shown(self) -> Px {
        match self.drag {
            Some(d) if d.kind == PanelDragKind::SidebarWidth => d.target,
            _ => self.sidebar_w,
        }
    }

    pub fn sidebar_w_visual(&self) -> (w: Px)
        ensures
            w == self.sidebar_shown(),
    {
        match self.drag {
            Some(d) => if d.kind == PanelDragKind::SidebarWidth {
                d.target
            } else {
                self.sidebar_w
            },
            None => self.sidebar_w,
        }
    }

    /// The width that the drawer is drawn with: a drag leads it.
    pub open spec fn drawer_shown(self) -> Px {
        match self.drag {
            Some(d) if d.kind == PanelDragKind::DrawerWidth => d.target,
            _ => self.drawer_w,
        }
    }

    pub fn drawer_w_visual(&self) -> (w: Px)
        ensures
            w == self.drawer_shown(),
    {
        match self.drag {
            Some(d) => if d.kind == PanelDragKind::DrawerWidth {
                d.target
            } else {
                self.drawer_w
            },
            None => self.drawer_w,
        }
    }

    /// The edge that a press would drag. The two widths can be dragged only where that is
    /// switched on, since it lays the grid out again; the height of the host list always.
    pub fn panel_resize_hit(panel_resize: bool, hits: EdgeHits) -> (r: Option<PanelDragKind>)
        ensures
            ({
                let drawer = panel_resize && hits.drawer_visible && hits.drawer_settled
                    && hits.on_drawer_edge;
                let side = hits.sidebar_visible && hits.sidebar_settled && hits.sidebar_has_width;
                r == (if drawer {
                    Some(PanelDragKind::DrawerWidth)
                } else if side && panel_resize && hits.on_sidebar_edge {
                    Some(PanelDragKind::SidebarWidth)
                } else if side && hits.hosts_open && hits.on_hosts_edge {
                    Some(PanelDragKind::HostsBand)
                } else {
                    None
                })
            }),
    {
        if panel_resize && hits.drawer_visible && hits.drawer_settled && hits.on_drawer_edge {
            return Some(PanelDragKind::DrawerWidth);
        }
        if hits.sidebar_visible && hits.sidebar_settled && hits.sidebar_has_width {
            if panel_resize && hits.on_sidebar_edge {
                return Some(PanelDragKind::SidebarWidth);
            }
            if hits.hosts_open && hits.on_hosts_edge {
                return Some(PanelDragKind::HostsBand);
            }
        }
        None
    }

    /// Starts dragging an edge. `band` is the height of the host list, at least its
    /// minimum, and `bottom` where that list ends; the widths have no such end.
    pub fn begin_panel_drag(&mut self, kind: PanelDragKind, band: Px, bottom: Px, now: u64)
        ensures
            *final(self) == (PanelState {
                drag: Some(
                    PanelDrag {
                        kind,
                        target: match kind {
                            PanelDragKind::SidebarWidth => old(self).sidebar_w,
                            PanelDragKind::DrawerWidth => old(self).drawer_w,
                            PanelDragKind::HostsBand => band,
                        },
                        last_apply: now,
                        anchor: if kind is HostsBand {
                            bottom
                        } else {
                            Px { bits: 0 }
                        },
                    },
                ),
                ..*old(self)
            }),
    {
        let target: Px = match kind {
            PanelDragKind::SidebarWidth => self.sidebar_w,
            PanelDragKind::DrawerWidth => self.drawer_w,
            PanelDragKind::HostsBand => band,
        };
        let anchor: Px = match kind {
            PanelDragKind::HostsBand => bottom,
            _ => Px { bits: 0 },
        };
        self.drag = Some(PanelDrag { kind, target, last_apply: now, anchor });
    }

    /// This state with the place of the drag applied.
    pub open spec fn applied(self) -> PanelState {
        match self.drag {
            Some(d) => match d.kind {
                PanelDragKind::SidebarWidth => PanelState { sidebar_w: d.target, ..self },
                PanelDragKind::DrawerWidth => PanelState { drawer_w: d.target, ..self },
                PanelDragKind::HostsBand => PanelState { hosts_band: d.target, ..self },
            },
            None => self,
        }
    }

    /// Whether applying the drag lays the grid out again.
    pub open spec fn drags_width(self) -> bool {
        self.drag matches Some(d) && d.kind != PanelDragKind::HostsBand
    }

    fn apply_panel_drag_target(&mut self, fx: &mut Fx)
        ensures
            *final(self) == old(self).applied(),
            *final(fx) == (if old(self).drags_width() {
                old(fx).reflowed()
            } else {
                *old(fx)
            }),
    {
        if let Some(d) = self.drag {
            match d.kind {
                PanelDragKind::SidebarWidth => {
                    self.sidebar_w = d.target;
                    fx.reflow();
                },
                PanelDragKind::DrawerWidth => {
                    self.drawer_w = d.target;
                    fx.reflow();
                },
                PanelDragKind::HostsBand => {
                    self.hosts_band = d.target;
                },
            }
        }
    }

    /// Whether the motion folds the dragged panel away.
    pub open spec fn folds(self, m: PanelMotion) -> bool {
        m.collapses && self.drags_width()
    }

    /// This state once the dragged panel was folded away. Its width stays for the next
    /// time it opens.
    pub open spec fn folded(self) -> PanelState {
        PanelState {
            drag: None,
            sidebar_collapsed: self.sidebar_collapsed || self.drag->0.kind
                == PanelDragKind::SidebarWidth,
            drawer_open: self.drawer_open && self.drag->0.kind != PanelDragKind::DrawerWidth,
            ..self
        }
    }

    /// This state with the drag at another place.
    pub open spec fn led_to(self, target: Px) -> PanelState {
        PanelState { drag: Some(PanelDrag { target, ..self.drag->0 }), ..self }
    }

    /// Whether the grid is laid out now: the width changed by a cell at least, and the
    /// last time is long enough ago.
    pub open spec fn due(self, m: PanelMotion) -> bool {
        self.drags_width() && m.crosses_cell && m.now - self.drag->0.last_apply
            >= PANEL_DRAG_REFLOW_MS
    }

    /// This state after a motion that does not fold the panel.
    pub open spec fn dragged(self, m: PanelMotion) -> PanelState {
        let led = self.led_to(m.target);
        if !self.drags_width() {
            led.applied()
        } else if self.due(m) {
            PanelState {
                drag: Some(PanelDrag { last_apply: m.now, ..led.drag->0 }),
                ..led
            }.applied()
        } else {
            led
        }
    }

    /// Follows the pointer with the dragged edge. The edge is drawn at every motion; the
    /// grid is laid out only when that is due. Pushed far enough out, a panel folds away.
    /// The result tells whether anything has to be drawn.
    pub fn update_panel_drag(&mut self, m: PanelMotion, fx: &mut Fx) -> (r: bool)
        ensures
            r == (old(self).drag is Some && (old(self).folds(m) || m.differs)),
            !r ==> *final(self) == *old(self) && *final(fx) == *old(fx),
            r && old(self).folds(m) ==> {
                let side = old(self).drag->0.kind == PanelDragKind::SidebarWidth;
                let moves = if side {
                    !old(self).sidebar_collapsed
                } else {
                    old(self).drawer_open
                };
                &&& *final(self) == old(self).folded()
                &&& *final(fx) == (if side {
                    if moves {
                        old(fx).reflowed().redrawn().saved()
                    } else {
                        old(fx).saved()
                    }
                } else if moves {
                    old(fx).reflowed().saved().touched()
                } else {
                    old(fx).saved().touched()
                })
            },
            r && !old(self).folds(m) ==> {
                &&& *final(self) == old(self).dragged(m)
                &&& *final(fx) == (if old(self).due(m) {
                    old(fx).reflowed().touched()
                } else {
                    old(fx).touched()
                })
            },
    {
        let drag: PanelDrag = match self.drag {
            Some(d) => d,
            None => {
                return false;
            },
        };
        if m.collapses {
            match drag.kind {
                PanelDragKind::SidebarWidth => {
                    self.drag = None;
                    if !self.sidebar_collapsed {
                        self.toggle_sidebar(fx);
                    }
                    fx.save();
                    return true;
                },
                PanelDragKind::DrawerWidth => {
                    self.drag = None;
                    if self.drawer_open {
                        self.drawer_open = false;
                        fx.reflow();
                    }
                    fx.save();
                    fx.touch();
                    return true;
                },
                PanelDragKind::HostsBand => {},
            }
        }
        if !m.differs {
            return false;
        }
        let late: bool = m.now >= drag.last_apply && m.now - drag.last_apply
            >= PANEL_DRAG_REFLOW_MS;
        let width: bool = drag.kind != PanelDragKind::HostsBand;
        let due: bool = width && m.crosses_cell && late;
        let last_apply: u64 = if due {
            m.now
        } else {
            drag.last_apply
        };
        self.drag = Some(
            PanelDrag { kind: drag.kind, target: m.target, last_apply, anchor: drag.anchor },
        );
        if due || !width {
            self.apply_panel_drag_target(fx);
        }
        fx.touch();
        true
    }

    /// Lets the edge go: its place is applied and written down.
    pub fn end_panel_drag(&mut self, fx: &mut Fx) -> (r: bool)
        ensures
            r == old(self).drag is Some,
            !r ==> *final(self) == *old(self) && *final(fx) == *old(fx),
            r ==> {
                &&& *final(self) == (PanelState { drag: None, ..old(self).applied() })
                &&& *final(fx) == (if old(self).drags_width() {
                    old(fx).reflowed().saved().touched()
                } else {
                    old(fx).saved().touched()
                })
            },
    {
        if self.drag.is_none() {
            return false;
        }
        self.apply_panel_drag_target(fx);
        self.drag = None;
        fx.save();
        fx.touch();
        true
    }
}

/// However often the grid was laid out on the way, a width that was dragged to a place
/// is that place once the edge is let go, and it is drawn there all the way.
pub proof fn dragged_width_is_kept(s: PanelState, m: PanelMotion)
    requires
        s.drags_width(),
        !s.folds(m),
    ensures
        s.drag->0.kind == PanelDragKind::SidebarWidth ==> s.dragged(m).applied().sidebar_w
            == m.target && s.dragged(m).sidebar_shown() == m.target,
        s.drag->0.kind == PanelDragKind::DrawerWidth ==> s.dragged(m).applied().drawer_w
            == m.target && s.dragged(m).drawer_shown() == m.target,
{
}

/// A panel that was folded away by a drag keeps its width.
pub proof fn folding_keeps_widths(s: PanelState)
    ensures
        s.folded().sidebar_w == s.sidebar_w,
        s.folded().drawer_w == s.drawer_w,
        s.folded().hosts_band == s.hosts_band,
{
}

/// A scrollable section of the sidebar.
#[derive(Clone, Copy, Debug, PartialEq, Eq, Structural)]
pub enum SidebarScrollKind {
    Tabs,
    Hosts,
}

/// The sections of the sidebar.
#[derive(Clone, Copy, Debug)]
pub struct SidebarState {
    pub tabs_open: bool,
    pub hosts_open: bool,
    pub tabs_scroll: usize,
    pub hosts_scroll: usize,
    pub scroll_drag: Option<(SidebarScrollKind, Px)>,
    pub queue_open: bool,
}

/// What the layout of the sidebar needs to know.
#[derive(Clone, Copy, Debug, PartialEq, Eq, Structural)]
pub struct SidebarModel {
    pub tab_count: usize,
    pub host_count: usize,
    pub tabs_open: bool,
    pub hosts_open: bool,
    pub tabs_scroll: usize,
    pub hosts_scroll: usize,
    pub sidebar_w: Px,
    pub hosts_band: Px,
}

/// A list scrolled by `rows`, kept between its first and its last position.
pub open spec fn scrolled_rows(current: usize, rows: i32, max: usize) -> int {
    let to = current + rows;
    if to < 0 {
        0
    } else if to > max {
        max as int
    } else {
        to
    }
}

fn scroll_rows(current: usize, rows: i32, max: usize) -> (r: usize)
    ensures
        r == scrolled_rows(current, rows, max),
{
    if rows < 0 {
        let up: usize = (-(rows as i64)) as usize;
        let to: usize = current.saturating_sub(up);
        if to > max {
            max
        } else {
            to
        }
    } else {
        let down: usize = rows as usize;
        if current > max || down > max - current {
            max
        } else {
            current + down
        }
    }
}

impl SidebarState {
    /// The sidebar lists sessions only: saved hosts have their own place, so no section
    /// for them is laid out.
    pub fn sidebar_model(&self, tab_count: usize, panels: &PanelState) -> (m: SidebarModel)
        ensures
            m == (SidebarModel {
                tab_count: if tab_count > 1 {
                    tab_count
                } else {
                    1
                },
                host_count: 0,
                tabs_open: self.tabs_open,
                hosts_open: false,
                tabs_scroll: self.tabs_scroll,
                hosts_scroll: self.hosts_scroll,
                sidebar_w: panels.sidebar_shown(),
                hosts_band: panels.hosts_band,
            }),
    {
        SidebarModel {
            tab_count: if tab_count > 1 {
                tab_count
            } else {
                1
            },
            host_count: 0,
            tabs_open: self.tabs_open,
            hosts_open: false,
            tabs_scroll: self.tabs_scroll,
            hosts_scroll: self.hosts_scroll,
            sidebar_w: panels.sidebar_w_visual(),
            hosts_band: panels.hosts_band,
        }
    }

    pub fn toggle_sidebar_section(&mut self, hosts: bool, fx: &mut Fx)
        ensures
            *final(self) == (SidebarState {
                tabs_open: old(self).tabs_open != !hosts,
                hosts_open: old(self).hosts_open != hosts,
                ..*old(self)
            }),
            *final(fx) == old(fx).marked(),
    {
        if hosts {
            self.hosts_open = !self.hosts_open;
        } else {
            self.tabs_open = !self.tabs_open;
        }
        fx.mark();
    }

    pub fn toggle_message_queue_entry(&mut self, fx: &mut Fx)
        ensures
            *final(self) == (SidebarState { queue_open: !old(self).queue_open, ..*old(self) }),
            *final(fx) == old(fx).touched(),
    {
        self.queue_open = !self.queue_open;
        fx.touch();
    }

    /// This state with a section scrolled to `to`.
    pub open spec fn scrolled_to(self, kind: SidebarScrollKind, to: usize) -> SidebarState {
        match kind {
            SidebarScrollKind::Tabs => SidebarState { tabs_scroll: to, ..self },
            SidebarScrollKind::Hosts => SidebarState { hosts_scroll: to, ..self },
        }
    }

    /// Where a section is scrolled to.
    pub open spec fn scroll_of(self, kind: SidebarScrollKind) -> usize {
        match kind {
            SidebarScrollKind::Tabs => self.tabs_scroll,
            SidebarScrollKind::Hosts => self.hosts_scroll,
        }
    }

    fn scroll_to(&mut self, kind: SidebarScrollKind, to: usize)
        ensures
            *final(self) == old(self).scrolled_to(kind, to),
    {
        match kind {
            SidebarScrollKind::Tabs => {
                self.tabs_scroll = to;
            },
            SidebarScrollKind::Hosts => {
                self.hosts_scroll = to;
            },
        }
    }

    fn scroll(&self, kind: SidebarScrollKind) -> (r: usize)
        ensures
            r == self.scroll_of(kind),
    {
        match kind {
            SidebarScrollKind::Tabs => self.tabs_scroll,
            SidebarScrollKind::Hosts => self.hosts_scroll,
        }
    }

    /// Scrolls the section under the pointer, with its last position; `None` where the
    /// pointer is over no section.
    pub fn sidebar_wheel(
        &mut self,
        over: Option<(SidebarScrollKind, usize)>,
        rows: i32,
        fx: &mut Fx,
    ) -> (r: bool)
        ensures
            r == over is Some,
            !r ==> *final(self) == *old(self) && *final(fx) == *old(fx),
            over matches Some((kind, max)) ==> {
                let to = scrolled_rows(old(self).scroll_of(kind), rows, max);
                &&& *final(self) == old(self).scrolled_to(kind, to as usize)
                &&& *final(fx) == old(fx).marked()
            },
    {
        match over {
            Some((kind, max)) => {
                let current: usize = self.scroll(kind);
                let to: usize = scroll_rows(current, rows, max);
                self.scroll_to(kind, to);
                fx.mark();
                true
            },
            None => false,
        }
    }

    /// Takes hold of a scrollbar: which one, where on its thumb, and where that leads.
    pub fn sidebar_scrollbar_press(
        &mut self,
        hit: Option<(SidebarScrollKind, Px, usize)>,
        fx: &mut Fx,
    ) -> (r: bool)
        ensures
            r == hit is Some,
            !r ==> *final(self) == *old(self) && *final(fx) == *old(fx),
            hit matches Some((kind, grab, target)) ==> {
                &&& *final(self) == (SidebarState {
                    scroll_drag: Some((kind, grab)),
                    ..old(self).scrolled_to(kind, target)
                })
                &&& *final(fx) == old(fx).marked()
            },
    {
        match hit {
            Some((kind, grab, target)) => {
                self.scroll_drag = Some((kind, grab));
                self.scroll_to(kind, target);
                fx.mark();
                true
            },
            None => false,
        }
    }

    /// Follows the pointer with a held scrollbar; `target` is `None` where it is gone.
    pub fn sidebar_scrollbar_drag_to(&mut self, target: Option<usize>, fx: &mut Fx) -> (r: bool)
        ensures
            r == (old(self).scroll_drag matches Some((kind, _)) && target is Some && target->0
                != old(self).scroll_of(kind)),
            !r ==> *final(self) == *old(self) && *final(fx) == *old(fx),
            r ==> (old(self).scroll_drag matches Some((kind, _))
                && *final(self) == old(self).scrolled_to(kind, target->0))
                && *final(fx) == old(fx).marked(),
    {
        match (self.scroll_drag, target) {
            (Some((kind, _)), Some(to)) => {
                if self.scroll(kind) == to {
                    return false;
                }
                self.scroll_to(kind, to);
                fx.mark();
                true
            },
            _ => false,
        }
    }

    pub fn sidebar_scrollbar_dragging(&self) -> (r: bool)
        ensures
            r == self.scroll_drag is Some,
    {
        self.scroll_drag.is_some()
    }

    pub fn end_sidebar_scrollbar_drag(&mut self) -> (r: bool)
        ensures
            r == old(self).scroll_drag is Some,
            *final(self) == (SidebarState { scroll_drag: None, ..*old(self) }),
    {
        let r: bool = self.scroll_drag.is_some();
        self.scroll_drag = None;
        r
    }
}

/// The wheel keeps a section inside its list.
pub proof fn wheel_stays_in_list(current: usize, rows: i32, max: usize)
    ensures
        0 <= scrolled_rows(current, rows, max) <= max,
{
}

/// The remote files of the drawer: the host they belong to. `routed` tells that the
/// focused pane is a session on that host, so that they are shown.
#[derive(Debug)]
pub struct SftpState {
    pub destination: Option<String>,
    pub routed: bool,
}

/// What a click into the remote files means.
#[derive(Clone, Copy, Debug, PartialEq, Eq, Structural)]
pub enum SftpHit {
    Nothing,
    Inside,
    Close,
    Path,
    Filter,
    Row(usize),
    Cancel,
}

/// What has to be done for a click into the remote files.
#[derive(Clone, Copy, Debug, PartialEq, Eq, Structural)]
pub enum SftpAction {
    Nothing,
    CancelTransfer,
    BeginPath,
    BeginFilter,
    SelectRow(usize),
}

impl SftpState {
    /// Whether the drawer shows the remote files.
    pub open spec fn shown(self) -> bool {
        self.destination is Some && self.routed
    }

    pub fn sftp_view_active(&self) -> (r: bool)
        ensures
            r == self.shown(),
    {
        self.destination.is_some() && self.routed
    }

    /// Whether the local tree of the drawer takes over the directory of the focused pane,
    /// and `changed` tells that this changed it.
    pub fn side_panel_sync(&self, changed: bool, fx: &mut Fx)
        ensures
            *final(fx) == (if !self.shown() && changed {
                old(fx).marked()
            } else {
                *old(fx)
            }),
    {
        if self.sftp_view_active() {
            return;
        }
        if changed {
            fx.mark();
        }
    }

    /// Lets the drawer follow the focused pane: the remote files are shown only for a
    /// session on their host.
    pub fn route_side_panel(&mut self, focused_ssh: Option<&str>, fx: &mut Fx)
        ensures
            *final(self) == (SftpState { routed: final(self).routed, ..*old(self) }),
            final(self).routed == (old(self).destination matches Some(d)
                && (focused_ssh matches Some(
                f,
            ) && d@ == f@)),
            *final(fx) == (if final(self).routed != old(self).routed {
                old(fx).touched()
            } else {
                *old(fx)
            }),
    {
        let routed: bool = match (&self.destination, focused_ssh) {
            (Some(d), Some(f)) => same_text(d.as_str(), f),
            _ => false,
        };
        if self.routed != routed {
            self.routed = routed;
            fx.touch();
        }
    }

    /// Opens or closes the drawer, or turns it to another view. Pages other than a
    /// terminal have no drawer. `toggled` is what the drawer does on its own; with remote
    /// files in it, it turns to `view`.
    pub fn toggle_side_panel(
        &mut self,
        view: u8,
        toggled: Drawer,
        special_tab: bool,
        panels: &mut PanelState,
        fx: &mut Fx,
    )
        ensures
            special_tab ==> *final(self) == *old(self) && *final(panels) == *old(panels)
                && *final(fx) == *old(fx),
            !special_tab ==> {
                let remote = old(self).destination is Some;
                &&& *final(self) == (SftpState { destination: None, ..*old(self) })
                &&& *final(panels) == (if remote {
                    PanelState { drawer_open: true, drawer_view: view, ..*old(panels) }
                } else {
                    PanelState {
                        drawer_open: toggled.open,
                        drawer_view: toggled.view,
                        search_focus: toggled.search_focus,
                        commit_focus: toggled.commit_focus,
                        ..*old(panels)
                    }
                })
                &&& *final(fx) == (if final(panels).drawer_open != old(panels).drawer_open {
                    old(fx).reflowed().touched()
                } else {
                    old(fx).touched()
                })
            },
    {
        if special_tab {
            return;
        }
        let was_open: bool = panels.drawer_open;
        if self.destination.is_some() {
            self.destination = None;
            panels.drawer_open = true;
            panels.drawer_view = view;
        } else {
            panels.drawer_open = toggled.open;
            panels.drawer_view = toggled.view;
            panels.search_focus = toggled.search_focus;
            panels.commit_focus = toggled.commit_focus;
        }
        if panels.drawer_open != was_open {
            fx.reflow();
        }
        fx.touch();
    }

    /// Shows the files of a host once they could be opened. Pages other than a terminal
    /// have no drawer.
    pub fn open_sftp_panel(
        &mut self,
        opened: Result<String, String>,
        special_tab: bool,
        panels: &mut PanelState,
        fx: &mut Fx,
    ) -> (r: Result<(), String>)
        ensures
            special_tab ==> r is Ok && *final(self) == *old(self) && *final(panels) == *old(panels)
                && *final(fx) == *old(fx),
            !special_tab ==> match opened {
                Err(e) => {
                    &&& r matches Err(m) && m@ == "无法打开 SFTP: "@ + e@
                    &&& *final(self) == *old(self)
                    &&& *final(panels) == *old(panels)
                    &&& *final(fx) == *old(fx)
                },
                Ok(destination) => {
                    &&& r is Ok
                    &&& *final(self) == (SftpState {
                        destination: Some(destination),
                        ..*old(self)
                    })
                    &&& *final(panels) == (PanelState {
                        drawer_open: true,
                        search_focus: false,
                        commit_focus: false,
                        ..*old(panels)
                    })
                    &&& *final(fx) == (if old(panels).drawer_open {
                        old(fx).touched()
                    } else {
                        old(fx).reflowed().touched()
                    })
                },
            },
    {
        if special_tab {
            return Ok(());
        }
        match opened {
            Err(e) => Err(crate::text::concat2("无法打开 SFTP: ", e.as_str())),
            Ok(destination) => {
                self.destination = Some(destination);
                panels.search_focus = false;
                panels.commit_focus = false;
                if !panels.drawer_open {
                    panels.drawer_open = true;
                    fx.reflow();
                }
                fx.touch();
                Ok(())
            },
        }
    }

    /// Closes the remote files and the drawer. The result tells that a transfer may have
    /// to be cancelled.
    pub fn close_sftp_panel(&mut self, panels: &mut PanelState, fx: &mut Fx) -> (cancel: bool)
        ensures
            cancel == old(self).destination is Some,
            *final(self) == (SftpState { destination: None, ..*old(self) }),
            *final(panels) == (PanelState { drawer_open: false, ..*old(panels) }),
            *final(fx) == (if old(panels).drawer_open {
                old(fx).reflowed().touched()
            } else {
                old(fx).touched()
            }),
    {
        let cancel: bool = self.destination.is_some();
        self.destination = None;
        if panels.drawer_open {
            panels.drawer_open = false;
            fx.reflow();
        }
        fx.touch();
        cancel
    }

    /// What is under the pointer; nothing while the drawer shows the local tree.
    pub fn sftp_hit(&self, hit: SftpHit) -> (r: SftpHit)
        ensures
            r == (if self.shown() {
                hit
            } else {
                SftpHit::Nothing
            }),
    {
        if self.sftp_view_active() {
            hit
        } else {
            SftpHit::Nothing
        }
    }

    /// Says what a click into the remote files asks for.
    pub fn sftp_click(&mut self, hit: SftpHit, panels: &mut PanelState, fx: &mut Fx) -> (a: SftpAction)
        ensures
            ({
                let open = old(self).destination is Some;
                &&& a == match hit {
                    SftpHit::Close if open => SftpAction::CancelTransfer,
                    SftpHit::Cancel if open => SftpAction::CancelTransfer,
                    SftpHit::Path if open => SftpAction::BeginPath,
                    SftpHit::Filter if open => SftpAction::BeginFilter,
                    SftpHit::Row(i) if open => SftpAction::SelectRow(i),
                    _ => SftpAction::Nothing,
                }
                &&& hit is Close ==> {
                    &&& *final(self) == (SftpState { destination: None, ..*old(self) })
                    &&& *final(panels) == (PanelState { drawer_open: false, ..*old(panels) })
                    &&& *final(fx) == (if old(panels).drawer_open {
                        old(fx).reflowed().touched()
                    } else {
                        old(fx).touched()
                    })
                }
                &&& !(hit is Close) ==> *final(self) == *old(self) && *final(panels) == *old(panels)
                    && *final(fx) == old(fx).touched()
            }),
    {
        let open: bool = self.destination.is_some();
        match hit {
            SftpHit::Close => {
                if self.close_sftp_panel(panels, fx) {
                    SftpAction::CancelTransfer
                } else {
                    SftpAction::Nothing
                }
            },
            SftpHit::Path => {
                fx.touch();
                if open {
                    SftpAction::BeginPath
                } else {
                    SftpAction::Nothing
                }
            },
            SftpHit::Filter => {
                fx.touch();
                if open {
                    SftpAction::BeginFilter
                } else {
                    SftpAction::Nothing
                }
            },
            SftpHit::Row(i) => {
                fx.touch();
                if open {
                    SftpAction::SelectRow(i)
                } else {
                    SftpAction::Nothing
                }
            },
            SftpHit::Cancel => {
                fx.touch();
                if open {
                    SftpAction::CancelTransfer
                } else {
                    SftpAction::Nothing
                }
            },
            SftpHit::Nothing | SftpHit::Inside => {
                fx.touch();
                SftpAction::Nothing
            },
        }
    }

    /// Asks before a remote file is deleted; `entry` is its name and whether it is a
    /// directory.
    pub fn sftp_request_delete_row(
        &self,
        entry: Option<(String, bool)>,
        confirm: &mut Option<NebulaConfirm>,
    )
        ensures
            *final(confirm) == match entry {
                Some((name, is_dir)) if self.destination is Some => Some(
                    NebulaConfirm::DeleteSftp { name, is_dir },
                ),
                _ => *old(confirm),
            },
    {
        if self.destination.is_some() {
            if let Some((name, is_dir)) = entry {
                *confirm = Some(NebulaConfirm::DeleteSftp { name, is_dir });
            }
        }
    }

    /// Answers that question with yes. The result tells whether there is a host to delete
    /// the file on.
    pub fn sftp_confirm_delete(&self, confirm: &mut Option<NebulaConfirm>) -> (r: bool)
        ensures
            *final(confirm) is None,
            r == self.destination is Some,
    {
        *confirm = None;
        self.destination.is_some()
    }

    /// Whether dropped files are taken: there are some, and a host to take them to.
    pub fn sftp_upload_dropped_paths(&self, count: usize, fx: &mut Fx) -> (r: bool)
        ensures
            r == (count > 0 && self.destination is Some),
            *final(fx) == (if r {
                old(fx).touched()
            } else {
                *old(fx)
            }),
    {
        if count == 0 || self.destination.is_none() {
            return false;
        }
        fx.touch();
        true
    }

    /// After a row of the remote files was selected: `opened` tells that it was opened
    /// with the same click, and `navigated` that it was a directory. A file is downloaded,
    /// which the result tells.
    pub fn sftp_row_downloads(opened: bool, navigated: bool) -> (r: bool)
        ensures
            r == (opened && !navigated),
    {
        opened && !navigated
    }
}

/// Takes a directory for the local tree; `changed` is `None` for a cancelled dialog and
/// else tells whether it is another one.
pub fn choose_side_panel_directory(changed: Option<bool>, fx: &mut Fx)
    ensures
        *final(fx) == (if changed == Some(true) {
            old(fx).touched()
        } else {
            *old(fx)
        }),
{
    if let Some(other) = changed {
        if other {
            fx.touch();
        }
    }
}

/// Lets the local tree follow the focused pane again; `changed` tells whether it did not.
pub fn follow_focused_directory(changed: bool, fx: &mut Fx)
    ensures
        *final(fx) == (if changed {
            old(fx).touched()
        } else {
            *old(fx)
        }),
{
    if changed {
        fx.touch();
    }
}

/// The wheel moves a list by what it was turned, and stops at both ends.
pub proof fn wheel_moves_by_what_it_turned(current: usize, rows: i32, max: usize)
    ensures
        0 <= current + rows <= max ==> scrolled_rows(current, rows, max) == current + rows,
        current + rows < 0 ==> scrolled_rows(current, rows, max) == 0,
        current + rows > max ==> scrolled_rows(current, rows, max) == max,
{
}

/// A section that was scrolled is where it was scrolled to, and the other one stays.
pub proof fn sections_scroll_apart(s: SidebarState, to: usize)
    ensures
        s.scrolled_to(SidebarScrollKind::Tabs, to).scroll_of(SidebarScrollKind::Tabs) == to,
        s.scrolled_to(SidebarScrollKind::Tabs, to).scroll_of(SidebarScrollKind::Hosts)
            == s.hosts_scroll,
        s.scrolled_to(SidebarScrollKind::Hosts, to).scroll_of(SidebarScrollKind::Hosts) == to,
        s.scrolled_to(SidebarScrollKind::Hosts, to).scroll_of(SidebarScrollKind::Tabs)
            == s.tabs_scroll,
        forall|k: SidebarScrollKind|
            (#[trigger] s.scrolled_to(k, to)).tabs_open == s.tabs_open && s.scrolled_to(
                k,
                to,
            ).hosts_open == s.hosts_open && s.scrolled_to(k, to).queue_open == s.queue_open,
{
}

/// While an edge is dragged, the grid is laid out at most every 80 milliseconds and only
/// where the width changed by a cell. Until then the width that counts stays, and so does
/// everything that is not dragged. The height of the host list follows at once.
pub proof fn dragging_lays_out_now_and_again(s: PanelState, m: PanelMotion)
    requires
        s.drag is Some,
    ensures
        s.due(m) ==> m.now >= s.drag->0.last_apply + 80 && m.crosses_cell,
        s.drags_width() <==> s.drag->0.kind is SidebarWidth || s.drag->0.kind is DrawerWidth,
        s.drags_width() && m.crosses_cell && m.now >= s.drag->0.last_apply + 80 ==> s.due(m),
        ({
            let now = s.dragged(m);
            let kind = s.drag->0.kind;
            &&& now.drag is Some && now.drag->0.kind == kind && now.drag->0.target == m.target
                && now.drag->0.anchor == s.drag->0.anchor
            &&& s.due(m) ==> now.drag->0.last_apply == m.now
            &&& !s.due(m) ==> now.drag->0.last_apply == s.drag->0.last_apply
            &&& now.sidebar_w == (if kind is SidebarWidth && s.due(m) {
                m.target
            } else {
                s.sidebar_w
            })
            &&& now.drawer_w == (if kind is DrawerWidth && s.due(m) {
                m.target
            } else {
                s.drawer_w
            })
            &&& now.hosts_band == (if kind is HostsBand {
                m.target
            } else {
                s.hosts_band
            })
            &&& now.sidebar_collapsed == s.sidebar_collapsed && now.drawer_open == s.drawer_open
                && now.drawer_view == s.drawer_view
        }),
{
}

/// A drag applies to its own edge alone, and only that panel folds. Nothing is drawn at the
/// place of a drag but the edge that is dragged.
pub proof fn drag_is_about_one_edge(s: PanelState, m: PanelMotion)
    ensures
        s.drag is None ==> s.applied() == s && s.sidebar_shown() == s.sidebar_w
            && s.drawer_shown() == s.drawer_w && !s.folds(m),
        s.drag matches Some(d) ==> {
            let now = s.applied();
            &&& now.drag == s.drag
            &&& now.sidebar_w == (if d.kind is SidebarWidth {
                d.target
            } else {
                s.sidebar_w
            })
            &&& now.drawer_w == (if d.kind is DrawerWidth {
                d.target
            } else {
                s.drawer_w
            })
            &&& now.hosts_band == (if d.kind is HostsBand {
                d.target
            } else {
                s.hosts_band
            })
            &&& s.sidebar_shown() == now.sidebar_w
            &&& s.drawer_shown() == now.drawer_w
            &&& s.folds(m) <==> m.collapses && !(d.kind is HostsBand)
            &&& d.kind is SidebarWidth ==> s.folded().sidebar_collapsed && s.folded().drawer_open
                == s.drawer_open
            &&& d.kind is DrawerWidth ==> !s.folded().drawer_open && s.folded().sidebar_collapsed
                == s.sidebar_collapsed
            &&& s.folded().drag is None
        },
{
}

/// A drawer that was closed is closed and has nothing focused; nothing else changes, and
/// closing it once more changes nothing.
pub proof fn closed_drawer_has_no_focus(s: PanelState, fx: Fx)
    ensures
        !s.shut().drawer_open,
        s.drawer_open ==> !s.shut().search_focus && !s.shut().commit_focus,
        s.shut().sidebar_collapsed == s.sidebar_collapsed && s.shut().drawer_view == s.drawer_view
            && s.shut().sidebar_w == s.sidebar_w && s.shut().drawer_w == s.drawer_w
            && s.shut().hosts_band == s.hosts_band && s.shut().drag == s.drag,
        s.shut().shut() == s.shut(),
        s.shut().shut_fx(fx) == fx,
        s.drawer_open ==> s.shut_fx(fx).update.dimensions == Some(fx.window_size)
            && s.shut_fx(fx).update.dirty && s.shut_fx(fx).redraw,
{
}

/// Folding the sidebar twice leaves it as it was; each time the grid is laid out again.
pub proof fn sidebar_folds_and_unfolds(
    s: &mut PanelState,
    fx: &mut Fx,
    t: &mut PanelState,
    fx2: &mut Fx,
)
    requires
        call_ensures(PanelState::toggle_sidebar, (s, fx), ()),
        call_ensures(PanelState::toggle_sidebar, (t, fx2), ()),
        *t == *final(s),
    ensures
        final(s).sidebar_collapsed != old(s).sidebar_collapsed,
        *final(t) == *old(s),
        final(s).drawer_open == old(s).drawer_open && final(s).sidebar_w == old(s).sidebar_w,
        final(fx).update.dimensions == Some(old(fx).window_size) && final(fx).redraw,
{
}

/// A press takes the edge that it is on: that of the drawer first, then that of the sidebar,
/// then that of the host list. Widths can be taken only where that is switched on, and no
/// edge of a panel that is hidden or still folding.
pub proof fn press_takes_the_edge_it_is_on(
    panel_resize: bool,
    hits: EdgeHits,
    r: Option<PanelDragKind>,
)
    requires
        call_ensures(PanelState::panel_resize_hit, (panel_resize, hits), r),
    ensures
        r == Some(PanelDragKind::DrawerWidth) <==> panel_resize && hits.on_drawer_edge
            && hits.drawer_visible && hits.drawer_settled,
        r == Some(PanelDragKind::SidebarWidth) ==> panel_resize && hits.on_sidebar_edge
            && hits.sidebar_visible && hits.sidebar_settled && hits.sidebar_has_width,
        r == Some(PanelDragKind::HostsBand) ==> hits.on_hosts_edge && hits.hosts_open
            && hits.sidebar_visible && hits.sidebar_settled && hits.sidebar_has_width,
        !hits.on_drawer_edge && panel_resize && hits.on_sidebar_edge && hits.sidebar_visible
            && hits.sidebar_settled && hits.sidebar_has_width ==> r == Some(
            PanelDragKind::SidebarWidth,
        ),
        !panel_resize && hits.on_hosts_edge && hits.hosts_open && hits.sidebar_visible
            && hits.sidebar_settled && hits.sidebar_has_width ==> r == Some(
            PanelDragKind::HostsBand,
        ),
        !hits.on_drawer_edge && !hits.on_sidebar_edge && !hits.on_hosts_edge ==> r is None,
{
}

/// A drag begins where its edge is, and nothing moves with the press alone.
pub proof fn drag_begins_where_the_edge_is(
    s: &mut PanelState,
    kind: PanelDragKind,
    band: Px,
    bottom: Px,
    now: u64,
)
    requires
        call_ensures(PanelState::begin_panel_drag, (s, kind, band, bottom, now), ()),
    ensures
        final(s).drag is Some && final(s).drag->0.kind == kind && final(s).drag->0.last_apply
            == now,
        kind is SidebarWidth ==> final(s).drag->0.target == old(s).sidebar_w,
        kind is DrawerWidth ==> final(s).drag->0.target == old(s).drawer_w,
        kind is HostsBand ==> final(s).drag->0.target == band && final(s).drag->0.anchor == bottom,
        final(s).sidebar_w == old(s).sidebar_w && final(s).drawer_w == old(s).drawer_w
            && final(s).hosts_band == old(s).hosts_band,
{
}

/// A motion of a held edge draws it at its new place or folds its panel away; without a held
/// edge, and without another place, nothing happens.
pub proof fn held_edge_follows_the_pointer(s: &mut PanelState, m: PanelMotion, fx: &mut Fx, r: bool)
    requires
        call_ensures(PanelState::update_panel_drag, (s, m, fx), r),
    ensures
        old(s).drag is None ==> !r,
        !r ==> *final(s) == *old(s) && *final(fx) == *old(fx),
        old(s).drag matches Some(d) ==> {
            let folds = m.collapses && !(d.kind is HostsBand);
            &&& r <==> folds || m.differs
            &&& folds ==> final(s).drag is None && final(fx).persist
            &&& folds && d.kind is SidebarWidth ==> final(s).sidebar_collapsed
            &&& folds && d.kind is DrawerWidth ==> !final(s).drawer_open
            &&& folds ==> final(s).sidebar_w == old(s).sidebar_w && final(s).drawer_w
                == old(s).drawer_w
            &&& r && !folds ==> final(s).drag is Some && final(s).drag->0.target == m.target
                && final(fx).redraw
            &&& r && !folds && d.kind is SidebarWidth ==> final(s).sidebar_shown() == m.target
            &&& r && !folds && d.kind is DrawerWidth ==> final(s).drawer_shown() == m.target
            &&& r && !folds && d.kind is HostsBand ==> final(s).hosts_band == m.target
            &&& r && !folds && !(m.crosses_cell && m.now >= d.last_apply + 80)
                ==> final(fx).update.dimensions == old(fx).update.dimensions
            &&& r && !folds && !(d.kind is HostsBand) && m.crosses_cell && m.now >= d.last_apply
                + 80 ==> final(fx).update.dimensions == Some(old(fx).window_size)
        },
{
}

/// An edge that is let go stays where it was led to, and is written down.
pub proof fn released_edge_stays(s: &mut PanelState, fx: &mut Fx, r: bool)
    requires
        call_ensures(PanelState::end_panel_drag, (s, fx), r),
    ensures
        r <==> old(s).drag is Some,
        final(s).drag is None,
        old(s).drag matches Some(d) ==> {
            &&& d.kind is SidebarWidth ==> final(s).sidebar_w == d.target
            &&& d.kind is DrawerWidth ==> final(s).drawer_w == d.target
            &&& d.kind is HostsBand ==> final(s).hosts_band == d.target
            &&& !(d.kind is SidebarWidth) ==> final(s).sidebar_w == old(s).sidebar_w
            &&& !(d.kind is DrawerWidth) ==> final(s).drawer_w == old(s).drawer_w
            &&& !(d.kind is HostsBand) ==> final(s).hosts_band == old(s).hosts_band
            &&& final(fx).persist && final(fx).redraw
        },
{
}

/// A section opens and closes on its own, twice being as before.
pub proof fn sections_open_apart(
    s: &mut SidebarState,
    hosts: bool,
    fx: &mut Fx,
    t: &mut SidebarState,
    fx2: &mut Fx,
)
    requires
        call_ensures(SidebarState::toggle_sidebar_section, (s, hosts, fx), ()),
        call_ensures(SidebarState::toggle_message_queue_entry, (t, fx2), ()),
    ensures
        hosts ==> final(s).hosts_open != old(s).hosts_open && final(s).tabs_open
            == old(s).tabs_open,
        !hosts ==> final(s).tabs_open != old(s).tabs_open && final(s).hosts_open
            == old(s).hosts_open,
        final(s).queue_open == old(s).queue_open && final(s).tabs_scroll == old(s).tabs_scroll,
        final(t).queue_open != old(t).queue_open && final(t).tabs_open == old(t).tabs_open
            && final(t).hosts_open == old(t).hosts_open,
{
}

/// The sidebar is laid out with a tab at least, with the width that is drawn, and without
/// hosts.
pub proof fn sidebar_lists_tabs(
    s: SidebarState,
    tab_count: usize,
    panels: PanelState,
    m: SidebarModel,
)
    requires
        call_ensures(SidebarState::sidebar_model, (&s, tab_count, &panels), m),
    ensures
        m.tab_count >= 1 && m.tab_count >= tab_count,
        tab_count >= 1 ==> m.tab_count == tab_count,
        m.host_count == 0 && !m.hosts_open,
        m.tabs_open == s.tabs_open && m.tabs_scroll == s.tabs_scroll,
        m.sidebar_w == panels.sidebar_shown() && m.hosts_band == panels.hosts_band,
{
}

/// The wheel scrolls the section under the pointer, and dragging its bar moves it to where
/// the thumb is; the other one stays.
pub proof fn section_under_the_pointer_scrolls(
    s: &mut SidebarState,
    over: Option<(SidebarScrollKind, usize)>,
    rows: i32,
    fx: &mut Fx,
    r: bool,
    t: &mut SidebarState,
    target: Option<usize>,
    fx2: &mut Fx,
    q: bool,
)
    requires
        call_ensures(SidebarState::sidebar_wheel, (s, over, rows, fx), r),
        call_ensures(SidebarState::sidebar_scrollbar_drag_to, (t, target, fx2), q),
        over matches Some((_, max)) ==> max <= usize::MAX,
    ensures
        r <==> over is Some,
        !r ==> *final(s) == *old(s),
        over matches Some((SidebarScrollKind::Tabs, max)) ==> final(s).hosts_scroll
            == old(s).hosts_scroll && final(s).tabs_scroll <= max && (0 <= old(s).tabs_scroll + rows
            <= max ==> final(s).tabs_scroll == old(s).tabs_scroll + rows),
        over matches Some((SidebarScrollKind::Hosts, max)) ==> final(s).tabs_scroll
            == old(s).tabs_scroll && final(s).hosts_scroll <= max && (0 <= old(s).hosts_scroll
            + rows <= max ==> final(s).hosts_scroll == old(s).hosts_scroll + rows),
        old(t).scroll_drag is None || target is None ==> !q && *final(t) == *old(t),
        (old(t).scroll_drag matches Some((SidebarScrollKind::Tabs, _)) && target is Some)
            ==> final(t).tabs_scroll == target->0 && final(t).hosts_scroll == old(t).hosts_scroll,
        (old(t).scroll_drag matches Some((SidebarScrollKind::Hosts, _)) && target is Some)
            ==> final(t).hosts_scroll == target->0 && final(t).tabs_scroll == old(t).tabs_scroll,
{
}

/// Remote files are shown for a session on their host alone; the files themselves stay.
pub proof fn remote_files_follow_the_session(
    s: &mut SftpState,
    focused_ssh: Option<&str>,
    fx: &mut Fx,
    t: SftpState,
    shown: bool,
)
    requires
        call_ensures(SftpState::route_side_panel, (s, focused_ssh, fx), ()),
        call_ensures(SftpState::sftp_view_active, (&t,), shown),
    ensures
        final(s).destination == old(s).destination,
        final(s).routed <==> (old(s).destination matches Some(d) && (focused_ssh matches Some(f)
            && f@ == d@)),
        final(s).routed != old(s).routed ==> final(fx).redraw,
        final(s).routed == old(s).routed ==> *final(fx) == *old(fx),
        shown <==> t.destination is Some && t.routed,
{
}

/// Files that could be opened are shown in the drawer, and an error is told; a page without
/// a drawer does neither.
pub proof fn opened_files_are_shown(
    s: &mut SftpState,
    opened: Result<String, String>,
    special_tab: bool,
    panels: &mut PanelState,
    fx: &mut Fx,
    r: Result<(), String>,
)
    requires
        call_ensures(SftpState::open_sftp_panel, (s, opened, special_tab, panels, fx), r),
    ensures
        special_tab ==> *final(s) == *old(s) && *final(panels) == *old(panels) && r is Ok,
        !special_tab && opened is Ok ==> final(s).destination == Some(opened->Ok_0)
            && final(panels).drawer_open && !final(panels).search_focus
            && !final(panels).commit_focus && r is Ok,
        !special_tab && opened is Err ==> r is Err && *final(s) == *old(s) && *final(panels)
            == *old(panels),
        final(panels).sidebar_w == old(panels).sidebar_w && final(panels).sidebar_collapsed
            == old(panels).sidebar_collapsed,
{
}

/// A click into remote files does what is under it, and the close button closes them with
/// the drawer.
pub proof fn click_into_files_does_what_is_under_it(
    s: &mut SftpState,
    hit: SftpHit,
    panels: &mut PanelState,
    fx: &mut Fx,
    a: SftpAction,
)
    requires
        call_ensures(SftpState::sftp_click, (s, hit, panels, fx), a),
    ensures
        hit is Close ==> final(s).destination is None && !final(panels).drawer_open,
        !(hit is Close) ==> final(s).destination == old(s).destination && *final(panels)
            == *old(panels),
        old(s).destination is None ==> a is Nothing,
        old(s).destination is Some ==> {
            &&& a is CancelTransfer <==> hit is Close || hit is Cancel
            &&& a is BeginPath <==> hit is Path
            &&& a is BeginFilter <==> hit is Filter
            &&& hit matches SftpHit::Row(i) ==> a == SftpAction::SelectRow(i)
            &&& a is SelectRow ==> hit is Row
        },
{
}

/// The key for the drawer turns it as it says, closes remote files, and does nothing on a
/// page without a drawer.
pub proof fn drawer_key_turns_the_drawer(
    s: &mut SftpState,
    view: u8,
    toggled: Drawer,
    special_tab: bool,
    panels: &mut PanelState,
    fx: &mut Fx,
)
    requires
        call_ensures(
            SftpState::toggle_side_panel,
            (s, view, toggled, special_tab, panels, fx),
            (),
        ),
    ensures
        special_tab ==> *final(s) == *old(s) && *final(panels) == *old(panels) && *final(fx)
            == *old(fx),
        !special_tab ==> final(s).destination is None,
        !special_tab && old(s).destination is Some ==> final(panels).drawer_open
            && final(panels).drawer_view == view,
        !special_tab && old(s).destination is None ==> final(panels).drawer_open == toggled.open
            && final(panels).drawer_view == toggled.view,
        final(panels).sidebar_w == old(panels).sidebar_w && final(panels).drawer_w
            == old(panels).drawer_w,
        !special_tab && final(panels).drawer_open != old(panels).drawer_open
            ==> final(fx).update.dimensions == Some(old(fx).window_size),
{
}

/// Closing the remote files closes the drawer and forgets their host; a delete is asked for
/// with the name of the file, and only with a host.
pub proof fn closed_files_are_forgotten(
    s: &mut SftpState,
    panels: &mut PanelState,
    fx: &mut Fx,
    cancel: bool,
    t: SftpState,
    entry: Option<(String, bool)>,
    confirm: &mut Option<NebulaConfirm>,
)
    requires
        call_ensures(SftpState::close_sftp_panel, (s, panels, fx), cancel),
        call_ensures(SftpState::sftp_request_delete_row, (&t, entry, confirm), ()),
    ensures
        cancel <==> old(s).destination is Some,
        final(s).destination is None && !final(panels).drawer_open,
        final(panels).sidebar_w == old(panels).sidebar_w,
        t.destination is None || entry is None ==> *final(confirm) == *old(confirm),
        t.destination is Some ==> (entry matches Some((name, is_dir)) ==> *final(confirm) == Some(
            NebulaConfirm::DeleteSftp { name, is_dir },
        )),
{
}

/// Dropped files are taken with a host to take them to, and a row downloads where a file was
/// opened.
pub proof fn dropped_files_need_a_host(
    s: SftpState,
    count: usize,
    fx: &mut Fx,
    r: bool,
    opened: bool,
    navigated: bool,
    q: bool,
    hit: SftpHit,
    h: SftpHit,
)
    requires
        call_ensures(SftpState::sftp_upload_dropped_paths, (&s, count, fx), r),
        call_ensures(SftpState::sftp_row_downloads, (opened, navigated), q),
        call_ensures(SftpState::sftp_hit, (&s, hit), h),
    ensures
        r <==> count > 0 && s.destination is Some,
        r ==> final(fx).redraw,
        !r ==> *final(fx) == *old(fx),
        q <==> opened && !navigated,
        s.destination is Some && s.routed ==> h == hit,
        s.destination is None || !s.routed ==> h is Nothing,
{
}

} // verus!
