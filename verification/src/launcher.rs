//! What the command palette lists: sessions of assistants, and what it needs to know of
//! the window.
use crate::fx::Fx;
use crate::hosts::HostState;
use crate::panels::PanelState;
use crate::prefs::Switches;
use crate::settings::clone_optional;
use crate::shells::{imported, shows_profile, shows_shell, ShellRow, ShellState};
use crate::text::{concat2, concat3};
use crate::view::{shows_host, HostMark, SshSettingsHost};
use crate::words::{eq_ignore_ascii_case, lowered};
use vstd::prelude::*;

verus! {

/// A session of an assistant that was found. Not every one can be resumed, and not every
/// one can be forked.
#[derive(Debug)]
pub struct AiSession {
    pub title: String,
    pub place: String,
    pub age: String,
    pub project: String,
    pub source: u8,
    pub source_label: String,
    pub resume: Option<String>,
    pub fork: Option<String>,
}

/// A row of the palette.
#[derive(Debug)]
pub struct AiSessionRow {
    pub label: String,
    pub hint: String,
    pub search: String,
    pub command: String,
    pub source: u8,
}

/// The texts of a row.
pub struct RowText {
    pub label: Seq<char>,
    pub hint: Seq<char>,
    pub search: Seq<char>,
    pub command: Seq<char>,
    pub source: u8,
}

pub open spec fn row_text(r: AiSessionRow) -> RowText {
    RowText {
        label: r.label@,
        hint: r.hint@,
        search: r.search@,
        command: r.command@,
        source: r.source,
    }
}

pub open spec fn row_texts(rows: Seq<AiSessionRow>) -> Seq<RowText> {
    rows.map_values(|r: AiSessionRow| row_text(r))
}

impl AiSession {
    /// Where and when, or when alone.
    pub open spec fn hint(self) -> Seq<char> {
        if self.place@.len() == 0 {
            self.age@
        } else {
            self.place@ + " · "@ + self.age@
        }
    }

    /// What a session is found by.
    pub open spec fn found_by(self) -> Seq<char> {
        self.title@ + " "@ + self.project@ + " "@ + self.source_label@
    }

    /// The row that resumes it.
    pub open spec fn resume_row(self) -> RowText {
        RowText {
            label: self.title@,
            hint: self.hint(),
            search: "恢复 resume "@ + self.found_by(),
            command: (self.resume->0)@,
            source: self.source,
        }
    }

    /// The row that forks it.
    pub open spec fn fork_row(self) -> RowText {
        RowText {
            label: "分叉 · "@ + self.title@,
            hint: self.hint(),
            search: "分叉 fork "@ + self.found_by(),
            command: (self.fork->0)@,
            source: self.source,
        }
    }

    fn hint_text(&self) -> (s: String)
        ensures
            s@ == self.hint(),
    {
        if self.place.as_str().is_empty() {
            self.age.clone()
        } else {
            concat3(self.place.as_str(), " · ", self.age.as_str())
        }
    }

    fn search_text(&self) -> (s: String)
        ensures
            s@ == self.found_by(),
    {
        let mut s = concat3(self.title.as_str(), " ", self.project.as_str());
        s.append(" ");
        s.append(self.source_label.as_str());
        s
    }
}

/// The rows for some sessions: one to resume each that can be, and one to fork it where
/// that is possible too.
pub open spec fn session_rows(sessions: Seq<AiSession>) -> Seq<RowText>
    decreases sessions.len(),
{
    if sessions.len() == 0 {
        Seq::empty()
    } else {
        let before = session_rows(sessions.drop_last());
        let s = sessions.last();
        if s.resume is None {
            before
        } else if s.fork is None {
            before.push(s.resume_row())
        } else {
            before.push(s.resume_row()).push(s.fork_row())
        }
    }
}

/// Lists the sessions that can be resumed.
pub fn open_ai_session_palette(sessions: &Vec<AiSession>, fx: &mut Fx) -> (rows: Vec<AiSessionRow>)
    ensures
        row_texts(rows@) == session_rows(sessions@),
        *final(fx) == old(fx).touched(),
{
    let mut rows: Vec<AiSessionRow> = Vec::new();
    let mut i: usize = 0;
    proof {
        assert(sessions@.take(0) =~= Seq::<AiSession>::empty());
        assert(row_texts(rows@) =~= Seq::<RowText>::empty());
    }
    while i < sessions.len()
        invariant
            i <= sessions@.len(),
            row_texts(rows@) == session_rows(sessions@.take(i as int)),
        decreases sessions@.len() - i,
    {
        let s: &AiSession = &sessions[i];
        proof {
            assert(sessions@.take(i + 1).drop_last() =~= sessions@.take(i as int));
        }
        if let Some(command) = &s.resume {
            let search = s.search_text();
            let ghost before = rows@;
            rows.push(
                AiSessionRow {
                    label: s.title.clone(),
                    hint: s.hint_text(),
                    search: concat2("恢复 resume ", search.as_str()),
                    command: command.clone(),
                    source: s.source,
                },
            );
            proof {
                assert(row_texts(rows@) =~= row_texts(before).push(s.resume_row()));
            }
            if let Some(fork) = &s.fork {
                let ghost one = rows@;
                rows.push(
                    AiSessionRow {
                        label: concat2("分叉 · ", s.title.as_str()),
                        hint: s.hint_text(),
                        search: concat2("分叉 fork ", search.as_str()),
                        command: fork.clone(),
                        source: s.source,
                    },
                );
                proof {
                    assert(row_texts(rows@) =~= row_texts(one).push(s.fork_row()));
                }
            }
        }
        i += 1;
    }
    proof {
        assert(sessions@.take(i as int) =~= sessions@);
    }
    fx.touch();
    rows
}

/// What the palette shows of the window when it opens.
#[derive(Debug)]
pub struct PaletteContext {
    pub cwd: Option<String>,
    pub sidebar: bool,
    pub panel_resize: bool,
    pub new_tab_inherits_cwd: bool,
}

/// What the palette needs to know when it opens: the directory of the focused pane, the
/// two switches that it lists, and whether a new tab starts in that directory.
/// `startup_is_dir` tells whether the chosen directory still is one.
pub fn toggle_command_palette(
    cwd: &Option<String>,
    panels: &PanelState,
    switches: &Switches,
    shells: &ShellState,
    startup_is_dir: bool,
    fx: &mut Fx,
) -> (c: PaletteContext)
    ensures
        c.cwd == *cwd,
        c.sidebar == !panels.sidebar_collapsed,
        c.panel_resize == switches.panel_resize,
        c.new_tab_inherits_cwd == !(shells.startup_directory is Some && startup_is_dir),
        *final(fx) == old(fx).marked(),
{
    fx.mark();
    PaletteContext {
        cwd: clone_optional(cwd),
        sidebar: !panels.sidebar_collapsed,
        panel_resize: switches.panel_resize,
        new_tab_inherits_cwd: shells.startup_directory(startup_is_dir).is_none(),
    }
}

/// What the palette is open with.
#[derive(Clone, Copy, Debug, PartialEq, Eq, Structural)]
pub struct PaletteMode {
    pub open: bool,
    pub picker: bool,
    pub picking_default: bool,
    pub picking_directory: bool,
}

/// What the key for the shell list does: it closes the list where that is what is open,
/// and opens it otherwise. The result tells whether it opens.
pub fn toggle_shell_menu(mode: PaletteMode, fx: &mut Fx) -> (opens: bool)
    ensures
        opens == !(mode.picker && !mode.picking_default && !mode.picking_directory),
        *final(fx) == old(fx).marked(),
{
    fx.mark();
    !(mode.picker && !mode.picking_default && !mode.picking_directory)
}

/// What the list for a new tab shows besides shells and profiles: the hosts, and the shell
/// that is marked as the default. `detect` tells that shells have to be looked for first.
#[derive(Debug)]
pub struct ShellMenu {
    pub hosts: Vec<SshSettingsHost>,
    pub default_shell: String,
    pub detect: bool,
}

/// Opens the list for a new tab.
pub fn open_shell_menu(
    hosts: &HostState,
    shells: &ShellState,
    labels: &Vec<HostMark>,
    icons: &Vec<HostMark>,
    default_icon: &str,
    family_id: &str,
    fx: &mut Fx,
) -> (m: ShellMenu)
    ensures
        m.hosts@.len() == hosts.listed@.len(),
        forall|i: int|
            0 <= i < m.hosts@.len() ==> shows_host(
                #[trigger] m.hosts@[i],
                hosts.listed@[i],
                labels@,
                icons@,
                default_icon@,
                hosts.pinned@,
            ),
        m.default_shell@ == (match shells.shell_id {
            Some(id) => id@,
            None => family_id@,
        }),
        m.detect == shells.detected is None,
        *final(fx) == old(fx).marked(),
{
    fx.mark();
    ShellMenu {
        hosts: hosts.host_rows(labels, icons, default_icon),
        default_shell: shells.default_shell_id(family_id),
        detect: shells.detected.is_none(),
    }
}

/// What the list for the default shell shows: shells and imported profiles, and the one
/// that is marked. `detect` tells that shells have to be looked for first.
#[derive(Debug)]
pub struct DefaultShellMenu {
    pub rows: Vec<ShellRow>,
    pub default_shell: String,
    pub detect: bool,
}

/// Opens the list for the default shell.
pub fn open_default_shell_picker(shells: &ShellState, family_id: &str, fx: &mut Fx) -> (m:
    DefaultShellMenu)
    ensures
        m.rows@.len() == shells.found().len() + imported(shells.profiles@).len(),
        forall|i: int|
            0 <= i < shells.found().len() ==> shows_shell(#[trigger] m.rows@[i], shells.found()[i]),
        forall|i: int|
            shells.found().len() <= i < m.rows@.len() ==> shows_profile(
                #[trigger] m.rows@[i],
                imported(shells.profiles@)[i - shells.found().len()],
            ),
        m.default_shell@ == (match shells.shell_id {
            Some(id) => id@,
            None => family_id@,
        }),
        m.detect == shells.detected is None,
        *final(fx) == old(fx).marked(),
{
    fx.mark();
    DefaultShellMenu {
        rows: shells.shell_rows(),
        default_shell: shells.default_shell_id(family_id),
        detect: shells.detected.is_none(),
    }
}

impl PaletteMode {
    pub fn command_palette_open(&self) -> (r: bool)
        ensures
            r == self.open,
    {
        self.open
    }

    pub fn command_palette_picking_default(&self) -> (r: bool)
        ensures
            r == self.picking_default,
    {
        self.picking_default
    }

    pub fn command_palette_picker_open(&self) -> (r: bool)
        ensures
            r == self.picker,
    {
        self.picker
    }

    /// After something was typed or erased: the list of directories has to be looked up
    /// again where it is what is open. The result tells whether.
    pub fn palette_edited(&self, fx: &mut Fx) -> (refresh: bool)
        ensures
            refresh == self.picking_directory,
            *final(fx) == old(fx).marked(),
    {
        fx.mark();
        self.picking_directory
    }

    /// After the tab key: `cycled` tells that it turned to another filter. Where there is
    /// none it moves the selection, which the result tells.
    pub fn palette_tab(&self, cycled: bool, fx: &mut Fx) -> (moves: bool)
        ensures
            moves == !cycled,
            *final(fx) == old(fx).marked(),
    {
        fx.mark();
        !cycled
    }

    /// After the list was scrolled, its scroll bar dragged, a filter picked or the pointer
    /// moved over it: only what `changed` is drawn.
    pub fn palette_moved(&self, changed: bool, fx: &mut Fx) -> (r: bool)
        ensures
            r == changed,
            *final(fx) == (if changed {
                old(fx).marked()
            } else {
                *old(fx)
            }),
    {
        if changed {
            fx.mark();
        }
        changed
    }
}

/// Decides which configuration file is opened in an editor: the one in use where it is a
/// Lua file, else the default one. Settings are written first, so that the editor shows
/// them. The path in use is the first one, and `extension` is its extension. How it went is told to
/// `user_config_file_opened`.
pub fn open_user_config_file(
    config_paths: &Vec<String>,
    extension: Option<&str>,
    default_path: Option<&str>,
    fx: &mut Fx,
) -> (r: Option<String>)
    ensures
        ({
            let lua = config_paths@.len() > 0 && (extension matches Some(e) && lowered(e@) == lowered(
                "lua"@,
            ));
            &&& lua ==> (r matches Some(p) && p@ == config_paths@[0]@)
            &&& !lua ==> (r is Some <==> default_path is Some)
            &&& !lua ==> (r matches Some(p) ==> p@ == (default_path->0)@)
        }),
        *final(fx) == old(fx).saved(),
{
    fx.save();
    if config_paths.len() > 0 {
        if let Some(e) = extension {
            if eq_ignore_ascii_case(e, "lua") {
                return Some(config_paths[0].clone());
            }
        }
    }
    match default_path {
        Some(path) => Some(path.to_owned()),
        None => None,
    }
}

/// After that file was looked for: `opened` tells that it was there, or could be written,
/// and went to the editor.
pub fn user_config_file_opened(opened: bool, fx: &mut Fx)
    ensures
        *final(fx) == (if opened {
            old(fx).marked()
        } else {
            *old(fx)
        }),
{
    if opened {
        fx.mark();
    }
}

/// The directory of the focused pane to show in the file manager; nothing happens where
/// it is not known.
pub fn reveal_focused_cwd(cwd: &Option<String>, fx: &mut Fx) -> (r: Option<String>)
    ensures
        r == *cwd,
        *final(fx) == (if cwd is Some {
            old(fx).marked()
        } else {
            *old(fx)
        }),
{
    if cwd.is_some() {
        fx.mark();
    }
    clone_optional(cwd)
}

/// Each session has its rows, whatever stands before and behind it: none where it cannot be
/// resumed, else one to resume it and, where it can be forked, one for that right behind.
pub proof fn sessions_have_their_rows(a: Seq<AiSession>, b: Seq<AiSession>, s: AiSession)
    ensures
        session_rows(a + b) == session_rows(a) + session_rows(b),
        ({
            let rows = session_rows(seq![s]);
            &&& s.resume is None ==> rows.len() == 0
            &&& s.resume is Some ==> rows.len() == (if s.fork is Some {
                2int
            } else {
                1
            }) && rows[0].command == (s.resume->0)@ && rows[0].label == s.title@
            &&& s.resume is Some && s.fork is Some ==> rows[1].command == (s.fork->0)@
                && rows[1].label == "分叉 · "@ + s.title@
            &&& forall|i: int|
                0 <= i < rows.len() ==> (#[trigger] rows[i]).source == s.source && rows[i].hint
                    == s.hint()
        }),
    decreases b.len(),
{
    if b.len() > 0 {
        sessions_have_their_rows(a, b.drop_last(), s);
        assert((a + b).drop_last() =~= a + b.drop_last());
        assert((a + b).last() == b.last());
        assert(session_rows(a + b) =~= session_rows(a) + session_rows(b));
    } else {
        assert(a + b =~= a);
        assert(session_rows(a + b) =~= session_rows(a) + session_rows(b));
    }
    let one = seq![s];
    assert(one.drop_last() =~= Seq::empty());
    assert(session_rows(one.drop_last()).len() == 0);
    assert(one.last() == s);
}

/// A session is found by its title, its project and its assistant, and by the word for what
/// the row does; its hint says when it was, and where if that is known.
pub proof fn sessions_are_found_by_what_they_are(s: AiSession)
    ensures
        s.place@.len() == 0 ==> s.hint() == s.age@,
        s.place@.len() > 0 ==> s.hint() == s.place@ + " · "@ + s.age@,
        s.resume_row().search == "恢复 resume "@ + s.title@ + " "@ + s.project@ + " "@
            + s.source_label@,
        s.fork_row().search == "分叉 fork "@ + s.title@ + " "@ + s.project@ + " "@
            + s.source_label@,
{
    assert(s.resume_row().search =~= "恢复 resume "@ + s.title@ + " "@ + s.project@ + " "@
        + s.source_label@);
    assert(s.fork_row().search =~= "分叉 fork "@ + s.title@ + " "@ + s.project@ + " "@
        + s.source_label@);
}

/// The palette offers each session that can be resumed, and its fork where it can be forked:
/// the rows of two lists of sessions are those of each, one behind the other.
pub proof fn palette_offers_every_session(sessions: Vec<AiSession>, fx: &mut Fx, rows: Vec<AiSessionRow>)
    requires
        call_ensures(open_ai_session_palette, (&sessions, fx), rows),
    ensures
        row_texts(rows@) == session_rows(sessions@),
        rows@.len() == session_rows(sessions@).len(),
        sessions@.len() == 0 ==> rows@.len() == 0,
        final(fx).redraw,
{
    assert(row_texts(rows@).len() == rows@.len());
}

/// A new tab starts in the directory of the pane unless another one was chosen and is still
/// there; the palette shows the sidebar as it is.
pub proof fn palette_shows_the_window(
    cwd: Option<String>,
    panels: PanelState,
    switches: Switches,
    shells: ShellState,
    startup_is_dir: bool,
    fx: &mut Fx,
    c: PaletteContext,
)
    requires
        call_ensures(
            toggle_command_palette,
            (&cwd, &panels, &switches, &shells, startup_is_dir, fx),
            c,
        ),
    ensures
        c.cwd == cwd,
        c.sidebar <==> !panels.sidebar_collapsed,
        c.panel_resize <==> switches.panel_resize,
        c.new_tab_inherits_cwd <==> shells.startup_directory is None || !startup_is_dir,
{
}

/// The key for the shell list closes it where that is what is open, and opens it otherwise.
pub proof fn shell_key_opens_and_closes(mode: PaletteMode, fx: &mut Fx, opens: bool)
    requires
        call_ensures(toggle_shell_menu, (mode, fx), opens),
    ensures
        !mode.picker ==> opens,
        mode.picking_default || mode.picking_directory ==> opens,
        mode.picker && !mode.picking_default && !mode.picking_directory ==> !opens,
{
}

/// The configuration in use is opened where it is a Lua file, whatever the case of its
/// extension, and else the default one.
pub proof fn lua_configuration_is_opened(
    config_paths: Vec<String>,
    extension: Option<&str>,
    default_path: Option<&str>,
    fx: &mut Fx,
    r: Option<String>,
)
    requires
        call_ensures(open_user_config_file, (&config_paths, extension, default_path, fx), r),
    ensures
        config_paths@.len() > 0 && (extension matches Some(e) && e@ == "lua"@) ==> r is Some && (
        r->0)@ == config_paths@[0]@,
        config_paths@.len() == 0 || extension is None ==> (r is Some <==> default_path is Some)
            && (r is Some ==> (r->0)@ == (default_path->0)@),
        final(fx).persist,
{
}

} // verus!
