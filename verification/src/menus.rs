//! Context menus, and what they do to files of the drawer.
use crate::color::{Px, Rgb};
use crate::fx::Fx;
use crate::modal::NebulaConfirm;
use crate::tabs::TabState;
use crate::text::concat2;
use vstd::prelude::*;

verus! {

/// What a context menu belongs to.
#[derive(Clone, Copy, Debug, PartialEq, Eq, Structural)]
pub enum ContextMenuTarget {
    Tab(usize),
    Ssh(usize),
    Sftp(usize),
    SftpPanel,
    FileTree { row: usize, is_dir: bool },
}

/// A place on the window.
#[derive(Clone, Copy, Debug, PartialEq, Eq, Structural)]
pub struct Anchor {
    pub x: Px,
    pub y: Px,
}

/// A context menu. It takes no clicks any more while it closes.
#[derive(Clone, Copy, Debug, PartialEq, Eq, Structural)]
pub struct ContextMenu {
    pub target: ContextMenuTarget,
    pub anchor: Anchor,
    pub color: Option<Rgb>,
    pub ai_fork: bool,
    pub interactive: bool,
    pub hover: Option<u32>,
}

/// What the pointer is over: an action of the menu, its panel between actions, or neither.
#[derive(Clone, Copy, Debug, PartialEq, Eq, Structural)]
pub enum ContextMenuHit {
    Outside,
    Panel,
    Action(u32),
}

/// A row of the local file tree. The row that leads to the parent directory has no menu.
#[derive(Debug)]
pub struct FileTreeRow {
    pub path: String,
    pub is_dir: bool,
    pub is_parent: bool,
}

/// The context menu of the window, and the selected path of the file tree.
#[derive(Debug)]
pub struct MenuState {
    pub menu: Option<ContextMenu>,
    pub selected: Option<String>,
    pub refresh_tree: bool,
    pub notice: Option<String>,
}

/// A menu that just opened.
pub open spec fn opened_menu(
    target: ContextMenuTarget,
    anchor: Anchor,
    color: Option<Rgb>,
    ai_fork: bool,
) -> ContextMenu {
    ContextMenu { target, anchor, color, ai_fork, interactive: true, hover: None }
}

fn open_menu(target: ContextMenuTarget, anchor: Anchor, color: Option<Rgb>, ai_fork: bool) -> (m:
    ContextMenu)
    ensures
        m == opened_menu(target, anchor, color, ai_fork),
{
    ContextMenu { target, anchor, color, ai_fork, interactive: true, hover: None }
}

/// Where the menu of a row opens: beside the row, or at the pointer where it has no place.
pub open spec fn menu_anchor(row: Option<Anchor>, pointer: Anchor) -> Anchor {
    match row {
        Some(a) => a,
        None => pointer,
    }
}

fn anchor_of(row: Option<Anchor>, pointer: Anchor) -> (a: Anchor)
    ensures
        a == menu_anchor(row, pointer),
{
    match row {
        Some(a) => a,
        None => pointer,
    }
}

impl MenuState {
    pub fn context_menu_interactive(&self) -> (r: bool)
        ensures
            r == (self.menu matches Some(m) && m.interactive),
    {
        match self.menu {
            Some(m) => m.interactive,
            None => false,
        }
    }

    /// Whether the menu of the target is open. It is not opened again then, so that it
    /// stays where it is.
    pub open spec fn open_for(self, target: ContextMenuTarget) -> bool {
        self.menu matches Some(m) && m.interactive && m.target == target
    }

    fn context_menu_open_for(&self, target: ContextMenuTarget) -> (r: bool)
        ensures
            r == self.open_for(target),
    {
        match self.menu {
            Some(m) => m.interactive && m.target == target,
            None => false,
        }
    }

    /// Opens the menu of a tab, which ends a drag of tabs.
    pub fn open_tab_context_menu(
        &mut self,
        index: usize,
        row: Option<Anchor>,
        pointer: Anchor,
        tabs: &mut TabState,
        fx: &mut Fx,
    )
        requires
            old(tabs).wf(),
        ensures
            final(tabs).wf(),
            ({
                let opens = index < old(tabs).labels@.len() && !old(self).open_for(
                    ContextMenuTarget::Tab(index),
                );
                &&& !opens ==> *final(self) == *old(self) && *final(tabs) == *old(tabs)
                    && *final(fx) == *old(fx)
                &&& opens ==> {
                    &&& *final(self) == (MenuState {
                        menu: Some(
                            opened_menu(
                                ContextMenuTarget::Tab(index),
                                menu_anchor(row, pointer),
                                old(tabs).colors@[index as int],
                                old(tabs).ai_fork@[index as int],
                            ),
                        ),
                        ..*old(self)
                    })
                    &&& *final(tabs) == (TabState { drag: None, ..*old(tabs) })
                    &&& *final(fx) == old(fx).touched()
                }
            }),
    {
        if index >= tabs.labels.len() || self.context_menu_open_for(ContextMenuTarget::Tab(index)) {
            return;
        }
        let anchor = anchor_of(row, pointer);
        let color: Option<Rgb> = tabs.colors[index];
        let ai_fork: bool = tabs.ai_fork[index];
        self.menu = Some(open_menu(ContextMenuTarget::Tab(index), anchor, color, ai_fork));
        tabs.drag = None;
        fx.touch();
    }

    /// Opens the menu of a host.
    pub fn open_ssh_context_menu(
        &mut self,
        index: usize,
        host_count: usize,
        row: Option<Anchor>,
        pointer: Anchor,
        fx: &mut Fx,
    )
        ensures
            ({
                let opens = index < host_count && !old(self).open_for(
                    ContextMenuTarget::Ssh(index),
                );
                &&& !opens ==> *final(self) == *old(self) && *final(fx) == *old(fx)
                &&& opens ==> {
                    &&& *final(self) == (MenuState {
                        menu: Some(
                            opened_menu(
                                ContextMenuTarget::Ssh(index),
                                menu_anchor(row, pointer),
                                None,
                                false,
                            ),
                        ),
                        ..*old(self)
                    })
                    &&& *final(fx) == old(fx).touched()
                }
            }),
    {
        if index >= host_count || self.context_menu_open_for(ContextMenuTarget::Ssh(index)) {
            return;
        }
        let anchor = anchor_of(row, pointer);
        self.menu = Some(open_menu(ContextMenuTarget::Ssh(index), anchor, None, false));
        fx.touch();
    }

    /// Opens the menu of a remote file, where `listed` tells that there is one.
    pub fn open_sftp_context_menu(
        &mut self,
        index: usize,
        listed: bool,
        pointer: Anchor,
        fx: &mut Fx,
    )
        ensures
            !listed ==> *final(self) == *old(self) && *final(fx) == *old(fx),
            listed ==> *final(self) == (MenuState {
                menu: Some(opened_menu(ContextMenuTarget::Sftp(index), pointer, None, false)),
                ..*old(self)
            }) && *final(fx) == old(fx).touched(),
    {
        if !listed {
            return;
        }
        self.menu = Some(open_menu(ContextMenuTarget::Sftp(index), pointer, None, false));
        fx.touch();
    }

    /// Opens the menu of the remote files as a whole.
    pub fn open_sftp_panel_context_menu(&mut self, shown: bool, pointer: Anchor, fx: &mut Fx)
        ensures
            !shown ==> *final(self) == *old(self) && *final(fx) == *old(fx),
            shown ==> *final(self) == (MenuState {
                menu: Some(opened_menu(ContextMenuTarget::SftpPanel, pointer, None, false)),
                ..*old(self)
            }) && *final(fx) == old(fx).touched(),
    {
        if !shown {
            return;
        }
        self.menu = Some(open_menu(ContextMenuTarget::SftpPanel, pointer, None, false));
        fx.touch();
    }

    /// Opens the menu of a file and selects the file. The row of the parent directory has
    /// none.
    pub fn open_file_tree_context_menu(
        &mut self,
        row: usize,
        entry: Option<FileTreeRow>,
        pointer: Anchor,
        fx: &mut Fx,
    )
        ensures
            match entry {
                Some(e) if !e.is_parent && !old(self).open_for(
                    ContextMenuTarget::FileTree { row, is_dir: e.is_dir },
                ) => {
                    &&& *final(self) == (MenuState {
                        menu: Some(
                            opened_menu(
                                ContextMenuTarget::FileTree { row, is_dir: e.is_dir },
                                pointer,
                                None,
                                false,
                            ),
                        ),
                        selected: Some(e.path),
                        ..*old(self)
                    })
                    &&& *final(fx) == old(fx).touched()
                },
                _ => *final(self) == *old(self) && *final(fx) == *old(fx),
            },
    {
        if let Some(e) = entry {
            if e.is_parent {
                return;
            }
            let target = ContextMenuTarget::FileTree { row, is_dir: e.is_dir };
            if self.context_menu_open_for(target) {
                return;
            }
            self.selected = Some(e.path);
            self.menu = Some(open_menu(target, pointer, None, false));
            fx.touch();
        }
    }

    /// The path that a menu of the file tree acts on. The tree may have changed since the
    /// menu opened: without a row there is none, and never that of the parent.
    pub fn file_tree_row_path(entry: Option<FileTreeRow>) -> (r: Option<(String, bool)>)
        ensures
            r == match entry {
                Some(e) if !e.is_parent => Some((e.path, e.is_dir)),
                _ => None,
            },
    {
        match entry {
            Some(e) => if e.is_parent {
                None
            } else {
                Some((e.path, e.is_dir))
            },
            None => None,
        }
    }

    /// Asks before a file is deleted.
    pub fn request_delete_file_tree(
        entry: Option<FileTreeRow>,
        confirm: &mut Option<NebulaConfirm>,
        fx: &mut Fx,
    )
        ensures
            match entry {
                Some(e) if !e.is_parent => {
                    &&& *final(confirm) == Some(
                        NebulaConfirm::DeleteFileTreePath { path: e.path, is_dir: e.is_dir },
                    )
                    &&& *final(fx) == old(fx).touched()
                },
                _ => *final(confirm) == *old(confirm) && *final(fx) == *old(fx),
            },
    {
        if let Some((path, is_dir)) = MenuState::file_tree_row_path(entry) {
            *confirm = Some(NebulaConfirm::DeleteFileTreePath { path, is_dir });
            fx.touch();
        }
    }

    /// Takes over how moving a file to the recycle bin went.
    pub fn confirm_delete_file_tree(
        &mut self,
        result: Result<(), String>,
        confirm: &mut Option<NebulaConfirm>,
        fx: &mut Fx,
    )
        ensures
            *final(confirm) is None,
            *final(fx) == old(fx).touched(),
            match result {
                Ok(_) => *final(self) == (MenuState { refresh_tree: true, ..*old(self) }),
                Err(e) => {
                    &&& *final(self) == (MenuState { notice: final(self).notice, ..*old(self) })
                    &&& final(self).notice matches Some(n) && n@ == "删除失败："@ + e@
                },
            },
    {
        *confirm = None;
        match result {
            Ok(_) => {
                self.refresh_tree = true;
            },
            Err(e) => {
                self.notice = Some(concat2("删除失败：", e.as_str()));
            },
        }
        fx.touch();
    }

    /// Shows the action under the pointer.
    pub fn context_menu_hover(&mut self, hit: ContextMenuHit, fx: &mut Fx) -> (r: ContextMenuHit)
        ensures
            r == (if old(self).menu is Some {
                hit
            } else {
                ContextMenuHit::Outside
            }),
            ({
                let hover = match r {
                    ContextMenuHit::Action(a) => Some(a),
                    _ => None,
                };
                match old(self).menu {
                    Some(m) if m.hover != hover => {
                        &&& *final(self) == (MenuState {
                            menu: Some(ContextMenu { hover, ..m }),
                            ..*old(self)
                        })
                        &&& *final(fx) == old(fx).touched()
                    },
                    _ => *final(self) == *old(self) && *final(fx) == *old(fx),
                }
            }),
    {
        let m: ContextMenu = match self.menu {
            Some(m) => m,
            None => {
                return ContextMenuHit::Outside;
            },
        };
        let hover: Option<u32> = match hit {
            ContextMenuHit::Action(a) => Some(a),
            ContextMenuHit::Outside | ContextMenuHit::Panel => None,
        };
        if m.hover != hover {
            self.menu = Some(
                ContextMenu {
                    target: m.target,
                    anchor: m.anchor,
                    color: m.color,
                    ai_fork: m.ai_fork,
                    interactive: m.interactive,
                    hover,
                },
            );
            fx.touch();
        }
        hit
    }

    /// This state with the menu closing.
    pub open spec fn closing(self) -> MenuState {
        match self.menu {
            Some(m) => MenuState { menu: Some(ContextMenu { interactive: false, ..m }), ..self },
            None => self,
        }
    }

    /// What that asks for.
    pub open spec fn closing_fx(self, fx: Fx) -> Fx {
        if self.menu is Some {
            fx.touched()
        } else {
            fx
        }
    }

    pub fn close_context_menu(&mut self, fx: &mut Fx)
        ensures
            *final(self) == old(self).closing(),
            *final(fx) == old(self).closing_fx(*old(fx)),
    {
        if let Some(m) = self.menu {
            self.menu = Some(
                ContextMenu {
                    target: m.target,
                    anchor: m.anchor,
                    color: m.color,
                    ai_fork: m.ai_fork,
                    interactive: false,
                    hover: m.hover,
                },
            );
            fx.touch();
        }
    }

    /// Answers a click: an action, and a click beside the menu, close it; a click between
    /// its actions is swallowed.
    pub fn context_menu_click(&mut self, hit: ContextMenuHit, fx: &mut Fx) -> (r: ContextMenuHit)
        ensures
            r == (if old(self).menu is Some {
                hit
            } else {
                ContextMenuHit::Outside
            }),
            !(r is Panel) ==> *final(self) == old(self).closing()
                && *final(fx) == old(self).closing_fx(*old(fx)),
            r is Panel ==> *final(self) == *old(self) && *final(fx) == *old(fx),
    {
        let r: ContextMenuHit = if self.menu.is_some() {
            hit
        } else {
            ContextMenuHit::Outside
        };
        match r {
            ContextMenuHit::Panel => {},
            _ => self.close_context_menu(fx),
        }
        r
    }
}

/// A menu that closes takes no clicks any more.
pub proof fn closing_menu_is_idle(s: MenuState)
    ensures
        s.closing().menu matches Some(m) ==> !m.interactive,
        forall|t: ContextMenuTarget| !s.closing().open_for(t),
{
}

/// A menu that just opened is open for its target and for nothing else, at its anchor.
pub proof fn opened_menu_is_open(
    s: MenuState,
    target: ContextMenuTarget,
    other: ContextMenuTarget,
    anchor: Anchor,
    color: Option<Rgb>,
    ai_fork: bool,
)
    requires
        s.menu == Some(opened_menu(target, anchor, color, ai_fork)),
    ensures
        s.open_for(target),
        s.open_for(other) ==> other == target,
        s.menu->0.anchor == anchor && s.menu->0.color == color && s.menu->0.ai_fork == ai_fork,
        s.menu->0.hover is None,
        menu_anchor(Some(anchor), s.menu->0.anchor) == anchor,
        menu_anchor(None, anchor) == anchor,
{
}

/// A menu that closes stays where it is until it is gone, and keeps what it is for.
pub proof fn closing_menu_stays_in_place(s: MenuState, fx: Fx)
    ensures
        s.closing().selected == s.selected && s.closing().refresh_tree == s.refresh_tree
            && s.closing().notice == s.notice,
        s.menu is Some <==> s.closing().menu is Some,
        s.menu matches Some(m) ==> s.closing().menu->0.target == m.target
            && s.closing().menu->0.anchor == m.anchor && s.closing().menu->0.color == m.color
            && s.closing().menu->0.ai_fork == m.ai_fork && s.closing().menu->0.hover == m.hover,
        s.menu is None ==> s.closing_fx(fx) == fx,
        s.menu is Some ==> s.closing_fx(fx).update.dirty && s.closing_fx(fx).redraw,
{
}

/// A menu of a tab opens at the tab with its color, and ends a drag; where it is open
/// already, and for a tab that is not there, nothing happens.
pub proof fn tab_menu_opens_at_the_tab(
    s: &mut MenuState,
    index: usize,
    row: Option<Anchor>,
    pointer: Anchor,
    tabs: &mut TabState,
    fx: &mut Fx,
)
    requires
        call_ensures(MenuState::open_tab_context_menu, (s, index, row, pointer, tabs, fx), ()),
        old(tabs).wf(),
    ensures
        index >= old(tabs).labels@.len() ==> *final(s) == *old(s) && *final(tabs) == *old(tabs),
        index < old(tabs).labels@.len() ==> final(s).open_for(ContextMenuTarget::Tab(index)),
        *final(s) != *old(s) ==> {
            &&& final(s).menu->0.color == old(tabs).colors@[index as int]
            &&& final(s).menu->0.ai_fork == old(tabs).ai_fork@[index as int]
            &&& row is Some ==> final(s).menu->0.anchor == row->0
            &&& row is None ==> final(s).menu->0.anchor == pointer
            &&& final(tabs).drag is None
        },
        final(tabs).labels == old(tabs).labels && final(tabs).active == old(tabs).active,
        final(s).selected == old(s).selected,
{
}

/// A menu of a file selects the file; the row that leads up has none.
pub proof fn file_menu_selects_the_file(
    s: &mut MenuState,
    row: usize,
    entry: Option<FileTreeRow>,
    pointer: Anchor,
    fx: &mut Fx,
    r: Option<(String, bool)>,
)
    requires
        call_ensures(MenuState::open_file_tree_context_menu, (s, row, entry, pointer, fx), ()),
        call_ensures(MenuState::file_tree_row_path, (entry,), r),
    ensures
        entry is None ==> *final(s) == *old(s) && r is None,
        entry matches Some(e) ==> {
            &&& e.is_parent ==> *final(s) == *old(s) && r is None
            &&& !e.is_parent ==> final(s).open_for(
                ContextMenuTarget::FileTree { row, is_dir: e.is_dir },
            ) && r == Some((e.path, e.is_dir))
            &&& *final(s) != *old(s) ==> final(s).selected == Some(e.path)
                && final(s).menu->0.anchor == pointer
        },
{
}

/// An open menu shows the action under the pointer; a click on an action or beside the menu
/// closes it, and one between actions does not.
pub proof fn menu_answers_the_pointer(
    s: &mut MenuState,
    hit: ContextMenuHit,
    fx: &mut Fx,
    r: ContextMenuHit,
    t: &mut MenuState,
    fx2: &mut Fx,
    q: ContextMenuHit,
)
    requires
        call_ensures(MenuState::context_menu_hover, (s, hit, fx), r),
        call_ensures(MenuState::context_menu_click, (t, hit, fx2), q),
    ensures
        old(s).menu is None ==> r is Outside && *final(s) == *old(s),
        old(s).menu matches Some(m) ==> {
            &&& r == hit
            &&& final(s).menu is Some && final(s).menu->0.target == m.target
                && final(s).menu->0.interactive == m.interactive
            &&& hit matches ContextMenuHit::Action(a) ==> final(s).menu->0.hover == Some(a)
            &&& !(hit is Action) ==> final(s).menu->0.hover is None
        },
        old(t).menu is None ==> q is Outside && *final(t) == *old(t),
        old(t).menu matches Some(m) ==> {
            &&& q == hit
            &&& hit is Panel ==> *final(t) == *old(t)
            &&& !(hit is Panel) ==> final(t).menu is Some && !final(t).menu->0.interactive
        },
{
}

/// A file that was moved to the bin has the tree read again, and one that could not be shows
/// why. The question is answered either way.
pub proof fn deleted_file_refreshes_the_tree(
    s: &mut MenuState,
    result: Result<(), String>,
    confirm: &mut Option<NebulaConfirm>,
    fx: &mut Fx,
)
    requires
        call_ensures(MenuState::confirm_delete_file_tree, (s, result, confirm, fx), ()),
    ensures
        *final(confirm) is None,
        result is Ok ==> final(s).refresh_tree && final(s).notice == old(s).notice,
        result is Err ==> final(s).notice is Some && final(s).refresh_tree == old(s).refresh_tree,
        final(s).menu == old(s).menu && final(s).selected == old(s).selected,
{
}

} // verus!
