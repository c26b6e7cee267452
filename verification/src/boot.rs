//! A new window: what it starts with, and what that asks of its surroundings.
use crate::backup::{BackupSelection, BackupState, BackupTarget, BACKUP_SLOTS};
use crate::color::{Px, Rgb};
use crate::config::{Platform, Profile};
use crate::display::Display;
use crate::fields::TextField;
use crate::fonts::{catalog_order, FontState};
use crate::frame::FrameState;
use crate::hosts::HostState;
use crate::keymap::KeymapState;
use crate::lang::UiLanguage;
use crate::look::LookState;
use crate::modal::NebulaConfirm;
use crate::page::{ColorState, NebulaSettingsSection, PageState, SettingsUi};
use crate::panels::{PanelState, SftpState, SidebarState};
use crate::providers::{AiProvider, ProviderState};
use crate::proxy::{choice_of, ProxyState, ProxyTestStatus};
use crate::settings::{
    HostSettings, KeySettings, NebulaRuntimeSettings, PanelSettings, ProxyReading, ProxySettings,
    ThemeSettings,
};
use crate::shells::ShellState;
use crate::sync::SyncState;
use crate::tabs::TabState;
use crate::text::{concat2, texts};
use crate::theme::{system_theme_snapshot, NebulaTheme, SystemTheme, ThemeState};
use crate::update::Viewport;
use vstd::prelude::*;

verus! {

/// Columns and lines of a window that no size was configured for.
pub const STARTUP_COLUMNS: usize = 116;

pub const STARTUP_LINES: usize = 30;

/// How a window is to be shown at first.
#[derive(Clone, Copy, Debug, PartialEq, Eq, Structural)]
pub enum StartupMode {
    Windowed,
    Maximized,
    Fullscreen,
    SimpleFullscreen,
}

/// What is done to a new window.
#[derive(Clone, Copy, Debug, PartialEq, Eq, Structural)]
pub enum StartupAction {
    Nothing,
    Maximize,
    Fullscreen,
    SimpleFullscreen,
}

/// What the surroundings know about a new window. `base_cell` is the cell at the configured
/// font size, where it is known, and `cell` that of the font in use; `sees_through` tells
/// that the kept opacity is below one, and `resize_increments` that the window is to be
/// resized in whole cells.
#[derive(Debug)]
pub struct BootInput {
    pub language: UiLanguage,
    pub system_theme: Option<SystemTheme>,
    pub window_theme: Option<SystemTheme>,
    pub window_override: Option<SystemTheme>,
    pub config_background: Rgb,
    pub config_dimensions: Option<(usize, usize)>,
    pub base_cell: Option<(Px, Px)>,
    pub cell: (Px, Px),
    pub font_size_bits: u32,
    pub installed: Vec<String>,
    pub required: String,
    pub missing_font_directory: Option<String>,
    pub font_error: Option<String>,
    pub grid: Viewport,
    pub section: NebulaSettingsSection,
    pub proxy: ProxyReading,
    pub profiles: Vec<Profile>,
    pub hosts: Vec<String>,
    pub providers: Vec<AiProvider>,
    pub active_provider: String,
    pub swatches: Vec<Rgb>,
    pub backup_selection: BackupSelection,
    pub backup_target: BackupTarget,
    pub mtime: Option<u64>,
    pub startup_mode: StartupMode,
    pub platform: Platform,
    pub tabbed: bool,
    pub wayland: bool,
    pub sees_through: bool,
    pub resize_increments: bool,
    pub config_paths: Vec<String>,
    pub highlight_damage: bool,
}

/// What has to be done for a new window: whether the system decorates it, color and opacity
/// of its first frame and whether that frame is shown, its transparency, blur and, where the
/// platform draws one, its shadow, its size in cells with the cell and the width of the
/// sidebar that it is reckoned with, whether it has a smallest size and is resized in cells,
/// that it becomes visible and whether it takes the focus, how it is shown, the theme that
/// the configured colors take the form of, that the proxy of the system is looked up, and whether wide bold glyphs are drawn
/// in the regular weight.
#[derive(Clone, Copy, Debug)]
pub struct BootActions {
    pub release_theme: bool,
    pub clear_color: Rgb,
    pub clear_opacity: Px,
    pub swap_first_frame: bool,
    pub transparent: bool,
    pub blur: bool,
    pub shadow: Option<bool>,
    pub dimensions: (usize, usize),
    pub start_cell: (Px, Px),
    pub start_sidebar_w: Px,
    pub apply_min_size: bool,
    pub set_increments: bool,
    pub show: bool,
    pub take_focus: bool,
    pub startup: StartupAction,
    pub recolor: NebulaTheme,
    pub probe_system_proxy: bool,
    pub wide_bold_regular: bool,
}

/// The size of a new window in cells: the configured one, or the standard one.
pub open spec fn start_dimensions(input: BootInput) -> (usize, usize) {
    match input.config_dimensions {
        Some(d) => d,
        None => (STARTUP_COLUMNS, STARTUP_LINES),
    }
}

/// The cell that the size of a new window is reckoned with: that of the configured font
/// size where it is known, else that of the font in use.
pub open spec fn start_cell(input: BootInput) -> (Px, Px) {
    match input.base_cell {
        Some(c) => c,
        None => input.cell,
    }
}

/// How a new window is shown. A window that joins another as a tab is left alone, and a
/// window on Wayland cannot be maximized before its first frame.
pub open spec fn startup_action(
    mode: StartupMode,
    platform: Platform,
    tabbed: bool,
    wayland: bool,
) -> StartupAction {
    match mode {
        StartupMode::SimpleFullscreen if !tabbed && platform is MacOs =>
            StartupAction::SimpleFullscreen,
        StartupMode::Maximized if !tabbed && !wayland => StartupAction::Maximize,
        StartupMode::Fullscreen if !tabbed && platform is Windows => StartupAction::Fullscreen,
        _ => StartupAction::Nothing,
    }
}

fn startup_action_for(mode: StartupMode, platform: Platform, tabbed: bool, wayland: bool) -> (a:
    StartupAction)
    ensures
        a == startup_action(mode, platform, tabbed, wayland),
{
    if tabbed {
        return StartupAction::Nothing;
    }
    match (mode, platform) {
        (StartupMode::SimpleFullscreen, Platform::MacOs) => StartupAction::SimpleFullscreen,
        (StartupMode::Maximized, _) => if wayland {
            StartupAction::Nothing
        } else {
            StartupAction::Maximize
        },
        (StartupMode::Fullscreen, Platform::Windows) => StartupAction::Fullscreen,
        _ => StartupAction::Nothing,
    }
}

/// The notice about a font that could not be loaded this time. The choice is kept: once
/// the font is back, so is the choice.
pub open spec fn font_notice(family: Seq<char>, error: Seq<char>) -> Seq<char> {
    "字体「"@ + family + "」本次不可用（"@ + error + "），暂用内置字体；偏好已保留。"@
}

fn font_notice_text(family: &str, error: &str) -> (s: String)
    ensures
        s@ == font_notice(family@, error@),
{
    let mut s = concat2("字体「", family);
    s.append("」本次不可用（");
    s.append(error);
    s.append("），暂用内置字体；偏好已保留。");
    s
}

impl ThemeState {
    /// The theme of a new window.
    pub open spec fn fresh_from(
        s: ThemeSettings,
        system: Option<SystemTheme>,
        window_override: Option<SystemTheme>,
    ) -> ThemeState {
        let theme = s.preference.resolved(s.follow_system, system);
        ThemeState {
            theme,
            preference: s.preference,
            follow_system: s.follow_system,
            system_theme: system,
            window_override,
            background: if s.follow_system {
                Some(theme.term_bg)
            } else {
                s.background
            },
            window_theme_request: None,
            color_change: None,
            publish: true,
        }
    }

    pub fn fresh(
        s: ThemeSettings,
        system: Option<SystemTheme>,
        window_override: Option<SystemTheme>,
    ) -> (t: ThemeState)
        ensures
            t == ThemeState::fresh_from(s, system, window_override),
    {
        let theme: NebulaTheme = s.preference.resolve(s.follow_system, system);
        ThemeState {
            theme,
            preference: s.preference,
            follow_system: s.follow_system,
            system_theme: system,
            window_override,
            background: if s.follow_system {
                Some(theme.term_bg)
            } else {
                s.background
            },
            window_theme_request: None,
            color_change: None,
            publish: true,
        }
    }
}

impl FontState {
    /// Whether `self` is the font of a new window.
    pub open spec fn is_fresh(
        self,
        family: String,
        size_bits: u32,
        installed: Seq<Seq<char>>,
        required: Seq<char>,
        error: Option<String>,
    ) -> bool {
        &&& self.family == family
        &&& self.size_bits == size_bits
        &&& texts(self.families@) == catalog_order(installed, required, family@)
        &&& self.proportional@.len() == 0
        &&& !self.show_all
        &&& self.query.wf()
        &&& self.query.is_blank()
        &&& self.popup_scroll == 0
        &&& self.popup_drag is None
        &&& match error {
            Some(e) => self.notice matches Some(n) && n@ == font_notice(family@, e@),
            None => self.notice is None,
        }
    }

    pub fn fresh(
        family: String,
        size_bits: u32,
        installed: Vec<String>,
        required: &str,
        error: Option<String>,
    ) -> (f: FontState)
        requires
            installed@.len() < usize::MAX - 1,
        ensures
            f.is_fresh(family, size_bits, texts(installed@), required@, error),
    {
        let notice: Option<String> = match error {
            Some(e) => Some(font_notice_text(family.as_str(), e.as_str())),
            None => None,
        };
        let primary: String = family.clone();
        let mut f = FontState {
            family,
            size_bits,
            families: Vec::new(),
            proportional: Vec::new(),
            show_all: false,
            query: TextField::empty(),
            popup_scroll: 0,
            popup_drag: None,
            notice,
        };
        f.list_families(installed, required, primary.as_str());
        f
    }
}

impl PageState {
    /// The settings page of a new window.
    pub open spec fn fresh_at(section: NebulaSettingsSection) -> PageState {
        PageState {
            open: false,
            special_tab: false,
            section,
            scroll: (Px { bits: 0 }),
            dropdown: None,
            text_drag: None,
            chrome_hover: 0,
            settings_hover: 0,
            settings_pressed: 0,
            message_close: false,
            message_close_hover: false,
        }
    }

    pub fn fresh(section: NebulaSettingsSection) -> (p: PageState)
        ensures
            p == PageState::fresh_at(section),
    {
        PageState {
            open: false,
            special_tab: false,
            section,
            scroll: Px { bits: 0 },
            dropdown: None,
            text_drag: None,
            chrome_hover: 0,
            settings_hover: 0,
            settings_pressed: 0,
            message_close: false,
            message_close_hover: false,
        }
    }
}

impl TabState {
    /// Whether `self` is the strip of a new window: one tab.
    pub open spec fn is_fresh(self) -> bool {
        &&& self.wf()
        &&& texts(self.labels@) == seq!["."@]
        &&& self.colors@ == seq![None::<Rgb>]
        &&& self.bells@ == seq![false]
        &&& self.running@ == seq![false]
        &&& self.attention@ == seq![false]
        &&& self.failed@ == seq![false]
        &&& self.flashing@ == seq![false]
        &&& self.logos@ == seq![None::<crate::tabs::AiLogo>]
        &&& self.shells@.len() == 1
        &&& self.shells@[0]@.len() == 0
        &&& self.ai_fork@ == seq![false]
        &&& self.active == 0
        &&& self.reorderable
        &&& self.drag is None
        &&& self.anim@.len() == 0
        &&& self.rename is None
        &&& self.rename_caret == 0
        &&& !self.rename_select_all
    }

    pub fn fresh() -> (t: TabState)
        ensures
            t.is_fresh(),
    {
        let t = TabState {
            labels: vec![".".to_owned()],
            colors: vec![None],
            bells: vec![false],
            running: vec![false],
            attention: vec![false],
            failed: vec![false],
            flashing: vec![false],
            logos: vec![None],
            shells: vec![String::new()],
            ai_fork: vec![false],
            active: 0,
            reorderable: true,
            drag: None,
            anim: Vec::new(),
            rename: None,
            rename_caret: 0,
            rename_select_all: false,
        };
        proof {
            assert(texts(t.labels@) =~= seq!["."@]);
            assert(t.colors@ =~= seq![None::<Rgb>]);
            assert(t.bells@ =~= seq![false]);
            assert(t.running@ =~= seq![false]);
            assert(t.attention@ =~= seq![false]);
            assert(t.failed@ =~= seq![false]);
            assert(t.flashing@ =~= seq![false]);
            assert(t.logos@ =~= seq![None::<crate::tabs::AiLogo>]);
            assert(t.ai_fork@ =~= seq![false]);
        }
        t
    }
}

impl PanelState {
    /// The panels of a new window: the sidebar is open, the drawer closed.
    pub open spec fn fresh_from(s: PanelSettings) -> PanelState {
        PanelState {
            sidebar_collapsed: false,
            drawer_open: false,
            drawer_view: 0,
            search_focus: false,
            commit_focus: false,
            sidebar_w: s.sidebar_w,
            drawer_w: s.drawer_w,
            hosts_band: s.hosts_band,
            drag: None,
        }
    }

    pub fn fresh(s: PanelSettings) -> (p: PanelState)
        ensures
            p == PanelState::fresh_from(s),
    {
        PanelState {
            sidebar_collapsed: false,
            drawer_open: false,
            drawer_view: 0,
            search_focus: false,
            commit_focus: false,
            sidebar_w: s.sidebar_w,
            drawer_w: s.drawer_w,
            hosts_band: s.hosts_band,
            drag: None,
        }
    }
}

impl KeymapState {
    /// Whether `self` is the key bindings page of a new window.
    pub open spec fn is_fresh(self, s: KeySettings) -> bool {
        &&& self.wf()
        &&& self.query.is_blank()
        &&& !self.search_focus
        &&& self.capture is None
        &&& self.preview@.len() == 0
        &&& self.keybinds == s.keybinds
        &&& self.rebuild
        &&& self.quick_hotkey == s.quick_hotkey
        &&& self.quick_error is None
        &&& self.quick_request is None
    }

    pub fn fresh(s: KeySettings) -> (k: KeymapState)
        ensures
            k.is_fresh(s),
    {
        KeymapState {
            query: TextField::empty(),
            search_focus: false,
            capture: None,
            preview: String::new(),
            keybinds: s.keybinds,
            rebuild: true,
            quick_hotkey: s.quick_hotkey,
            quick_error: None,
            quick_request: None,
        }
    }
}

impl ProxyState {
    /// Whether `self` is the network page of a new window. No local proxy is known yet.
    pub open spec fn is_fresh(self, s: ProxySettings, r: ProxyReading) -> bool {
        &&& self.wf()
        &&& self.mode == s.mode
        &&& self.url == s.url
        &&& self.no_proxy == s.no_proxy
        &&& self.protocol == r.protocol
        &&& self.choice == choice_of(s.url@, Seq::<Seq<char>>::empty(), r.is_jump, r.is_command)
        &&& forall|i: int| 0 <= i < 3 ==> (#[trigger] self.fields@[i]).is_blank()
        &&& self.focus is None
        &&& self.backup.0@.len() == 0
        &&& self.backup.1@.len() == 0
        &&& self.found@.len() == 0
        &&& !self.scanning
        &&& !self.scan_request
        &&& self.test_seq == 0
        &&& self.test_request is None
        &&& self.test_status is Idle
        &&& self.system is None
    }

    pub fn fresh(s: ProxySettings, r: &ProxyReading) -> (p: ProxyState)
        ensures
            p.is_fresh(s, *r),
    {
        let found: Vec<String> = Vec::new();
        proof {
            assert(texts(found@) =~= Seq::<Seq<char>>::empty());
        }
        let choice = crate::proxy::choice_for(s.url.as_str(), &found, r.is_jump, r.is_command);
        ProxyState {
            mode: s.mode,
            choice,
            protocol: r.protocol,
            url: s.url,
            no_proxy: s.no_proxy,
            fields: vec![TextField::empty(), TextField::empty(), TextField::empty()],
            focus: None,
            backup: (String::new(), String::new()),
            found,
            scanning: false,
            scan_request: false,
            test_seq: 0,
            test_request: None,
            test_status: ProxyTestStatus::Idle,
            system: None,
        }
    }
}

impl ProviderState {
    /// Whether `self` is the page of the providers of a new window.
    pub open spec fn is_fresh(self, list: Vec<AiProvider>, active_id: String) -> bool {
        &&& self.wf()
        &&& self.list == list
        &&& self.active_id == active_id
        &&& forall|i: int| 0 <= i < 6 ==> (#[trigger] self.inputs@[i]).is_blank()
        &&& self.focus is None
        &&& self.status is None
        &&& self.test_seq == 0
        &&& self.test_request is None
        &&& self.codex_confirm is None
        &&& !self.save
    }

    pub fn fresh(list: Vec<AiProvider>, active_id: String) -> (p: ProviderState)
        ensures
            p.is_fresh(list, active_id),
    {
        ProviderState {
            list,
            active_id,
            inputs: vec![
                TextField::empty(),
                TextField::empty(),
                TextField::empty(),
                TextField::empty(),
                TextField::empty(),
                TextField::empty(),
            ],
            focus: None,
            status: None,
            test_seq: 0,
            test_request: None,
            codex_confirm: None,
            save: false,
        }
    }
}

impl SyncState {
    /// Whether `self` is the sync form of a new window.
    pub open spec fn is_fresh(self) -> bool {
        &&& self.wf()
        &&& forall|i: int| 0 <= i < 4 ==> (#[trigger] self.inputs@[i])@.len() == 0
        &&& !self.auto_pull
        &&& !self.password_set
        &&& !self.passphrase_set
        &&& self.focus is None
        &&& self.status is None
        &&& !self.busy
    }

    pub fn fresh() -> (s: SyncState)
        ensures
            s.is_fresh(),
    {
        SyncState {
            inputs: vec![Vec::new(), Vec::new(), Vec::new(), Vec::new()],
            auto_pull: false,
            password_set: false,
            passphrase_set: false,
            focus: None,
            status: None,
            busy: false,
        }
    }
}

impl BackupState {
    /// Whether `self` is the backup form of a new window.
    pub open spec fn is_fresh(self, selection: BackupSelection, target: BackupTarget) -> bool {
        &&& self.selection == selection
        &&& self.target == target
        &&& self.inputs@.len() == BACKUP_SLOTS
        &&& forall|i: int| 0 <= i < BACKUP_SLOTS ==> (#[trigger] self.inputs@[i])@.len() == 0
        &&& self.focus is None
        &&& !self.secret_set
        &&& self.status is None
        &&& !self.status_remote
        &&& !self.busy
        &&& self.operation is None
        &&& self.passphrase@.len() == 0
        &&& !self.passphrase_selected
    }

    pub fn fresh(selection: BackupSelection, target: BackupTarget) -> (b: BackupState)
        ensures
            b.is_fresh(selection, target),
    {
        BackupState {
            selection,
            target,
            inputs: vec![
                Vec::new(),
                Vec::new(),
                Vec::new(),
                Vec::new(),
                Vec::new(),
            ],
            focus: None,
            secret_set: false,
            status: None,
            status_remote: false,
            busy: false,
            operation: None,
            passphrase: Vec::new(),
            passphrase_selected: false,
        }
    }
}

impl HostState {
    /// Whether `self` are the hosts of a new window; `listed` is the list put together.
    pub open spec fn is_fresh(self, s: HostSettings, listed: Vec<String>) -> bool {
        &&& self.saved == s.saved
        &&& self.pinned == s.pinned
        &&& self.hidden == s.hidden
        &&& self.listed == listed
        &&& self.undo is None
        &&& !self.undo_bar
        &&& !self.undo_hover
        &&& self.expired_credentials@.len() == 0
    }

    pub fn fresh(s: HostSettings, listed: Vec<String>) -> (h: HostState)
        ensures
            h.is_fresh(s, listed),
    {
        HostState {
            saved: s.saved,
            pinned: s.pinned,
            hidden: s.hidden,
            listed,
            undo: None,
            undo_bar: false,
            undo_hover: false,
            expired_credentials: Vec::new(),
        }
    }
}

impl Display {
    /// Whether `self` is a new window with these settings.
    pub open spec fn is_fresh(self, s: NebulaRuntimeSettings, input: BootInput) -> bool {
        let system = if input.system_theme is Some {
            input.system_theme
        } else {
            input.window_theme
        };
        &&& self.language_preference == s.language
        &&& self.language == input.language
        &&& self.mtime == input.mtime
        &&& self.ui.page == PageState::fresh_at(input.section)
        &&& self.ui.color.hex@.len() == 0
        &&& !self.ui.color.hex_active
        &&& self.ui.color.palette_index == 0
        &&& self.ui.color.swatches == input.swatches
        &&& !self.ui.color.picker_drag
        &&& self.ui.font.is_fresh(
            s.font_family,
            input.font_size_bits,
            texts(input.installed@),
            input.required@,
            input.font_error,
        )
        &&& self.theme == ThemeState::fresh_from(s.theme, system, input.window_override)
        &&& self.switches == s.switches
        &&& self.choices == s.choices
        &&& self.look == (LookState {
            opacity: s.look.opacity,
            image: s.look.image,
            image_opacity: s.look.image_opacity,
            drag: None,
        })
        &&& self.shells == (ShellState {
            family: s.shell.family,
            shell_id: s.shell.shell_id,
            startup_directory: s.shell.startup_directory,
            detected: None,
            profiles: input.profiles,
        })
        &&& self.hosts.is_fresh(s.hosts, input.hosts)
        &&& self.tabs.is_fresh()
        &&& self.panels == PanelState::fresh_from(s.panels)
        &&& self.sidebar == (SidebarState {
            tabs_open: true,
            hosts_open: true,
            tabs_scroll: 0,
            hosts_scroll: 0,
            scroll_drag: None,
            queue_open: false,
        })
        &&& self.sftp == (SftpState { destination: None, routed: true })
        &&& self.keymap.is_fresh(s.keys)
        &&& self.proxy.is_fresh(s.proxy, input.proxy)
        &&& self.providers.is_fresh(input.providers, input.active_provider)
        &&& self.sync.is_fresh()
        &&& self.backup.is_fresh(input.backup_selection, input.backup_target)
        &&& self.confirm == match input.missing_font_directory {
            Some(directory) => Some(NebulaConfirm::InstallRequiredFont { directory }),
            None => None,
        }
        &&& self.frame == (FrameState {
            viewport: input.grid,
            pending_renderer_update: None,
            pty_resize_pending: false,
            resize_hud: None,
            resize_hud_armed: false,
        })
        &&& self.config_paths == input.config_paths
        &&& self.highlight_damage == input.highlight_damage
    }

    /// Starts a window with the kept settings. A missing font is asked about at once.
    pub fn new(settings: NebulaRuntimeSettings, input: BootInput) -> (r: (Display, BootActions))
        requires
            input.installed@.len() < usize::MAX - 1,
            input.backup_target.field_count <= BACKUP_SLOTS,
        ensures
            r.0.wf(),
            r.0.is_fresh(settings, input),
            r.1.release_theme == settings.theme.follow_system,
            r.1.clear_color == (if settings.theme.follow_system {
                r.0.theme.theme.term_bg
            } else {
                match settings.theme.background {
                    Some(c) => c,
                    None => input.config_background,
                }
            }),
            r.1.clear_opacity == settings.look.opacity,
            r.1.swap_first_frame == !input.wayland,
            r.1.transparent == input.sees_through,
            r.1.blur == settings.switches.blur,
            r.1.shadow == (if input.platform is MacOs {
                Some(!input.sees_through)
            } else {
                None
            }),
            r.1.dimensions == start_dimensions(input),
            r.1.start_cell == start_cell(input),
            r.1.start_sidebar_w == settings.panels.sidebar_w,
            r.1.apply_min_size == input.platform is Windows,
            r.1.set_increments == input.resize_increments,
            r.1.show,
            r.1.take_focus == input.platform is MacOs,
            r.1.recolor == r.0.theme.theme,
            r.1.startup == startup_action(
                input.startup_mode,
                input.platform,
                input.tabbed,
                input.wayland,
            ),
            r.1.probe_system_proxy,
            r.1.wide_bold_regular == settings.switches.cjk_bold_regular,
    {
        let system = system_theme_snapshot(input.system_theme, input.window_theme);
        let theme = ThemeState::fresh(settings.theme, system, input.window_override);
        let clear_color: Rgb = if settings.theme.follow_system {
            theme.theme.term_bg
        } else {
            match settings.theme.background {
                Some(c) => c,
                None => input.config_background,
            }
        };
        let (mac, windows): (bool, bool) = match input.platform {
            Platform::MacOs => (true, false),
            Platform::Windows => (false, true),
            Platform::Unix => (false, false),
        };
        let actions = BootActions {
            release_theme: settings.theme.follow_system,
            clear_color,
            clear_opacity: settings.look.opacity,
            swap_first_frame: !input.wayland,
            transparent: input.sees_through,
            blur: settings.switches.blur,
            shadow: if mac {
                Some(!input.sees_through)
            } else {
                None
            },
            dimensions: match input.config_dimensions {
                Some(d) => d,
                None => (STARTUP_COLUMNS, STARTUP_LINES),
            },
            start_cell: match input.base_cell {
                Some(c) => c,
                None => input.cell,
            },
            start_sidebar_w: settings.panels.sidebar_w,
            apply_min_size: windows,
            set_increments: input.resize_increments,
            show: true,
            take_focus: mac,
            recolor: theme.theme,
            startup: startup_action_for(
                input.startup_mode,
                input.platform,
                input.tabbed,
                input.wayland,
            ),
            probe_system_proxy: true,
            wide_bold_regular: settings.switches.cjk_bold_regular,
        };
        let font = FontState::fresh(
            settings.font_family,
            input.font_size_bits,
            input.installed,
            input.required.as_str(),
            input.font_error,
        );
        let display = Display {
            language_preference: settings.language,
            language: input.language,
            mtime: input.mtime,
            ui: SettingsUi {
                page: PageState::fresh(input.section),
                color: ColorState {
                    hex: Vec::new(),
                    hex_active: false,
                    palette_index: 0,
                    swatches: input.swatches,
                    picker_drag: false,
                },
                font,
            },
            theme,
            switches: settings.switches,
            choices: settings.choices,
            look: LookState {
                opacity: settings.look.opacity,
                image: settings.look.image,
                image_opacity: settings.look.image_opacity,
                drag: None,
            },
            shells: ShellState {
                family: settings.shell.family,
                shell_id: settings.shell.shell_id,
                startup_directory: settings.shell.startup_directory,
                detected: None,
                profiles: input.profiles,
            },
            hosts: HostState::fresh(settings.hosts, input.hosts),
            tabs: TabState::fresh(),
            panels: PanelState::fresh(settings.panels),
            sidebar: SidebarState {
                tabs_open: true,
                hosts_open: true,
                tabs_scroll: 0,
                hosts_scroll: 0,
                scroll_drag: None,
                queue_open: false,
            },
            sftp: SftpState { destination: None, routed: true },
            keymap: KeymapState::fresh(settings.keys),
            proxy: ProxyState::fresh(settings.proxy, &input.proxy),
            providers: ProviderState::fresh(input.providers, input.active_provider),
            sync: SyncState::fresh(),
            backup: BackupState::fresh(input.backup_selection, input.backup_target),
            confirm: match input.missing_font_directory {
                Some(directory) => Some(NebulaConfirm::InstallRequiredFont { directory }),
                None => None,
            },
            frame: FrameState {
                viewport: input.grid,
                pending_renderer_update: None,
                pty_resize_pending: false,
                resize_hud: None,
                resize_hud_armed: false,
            },
            config_paths: input.config_paths,
            highlight_damage: input.highlight_damage,
        };
        (display, actions)
    }
}

/// A new window keeps the settings that it was started with, save a background that an
/// automatic theme replaces.
pub proof fn new_window_keeps_settings(d: Display, s: NebulaRuntimeSettings, input: BootInput)
    requires
        d.is_fresh(s, input),
        !s.theme.follow_system,
    ensures
        d.kept(s),
{
}

/// The stored zoom has no part in the size of a new window: two starts that differ only in
/// the size of the font in use, and in what that size makes of the grid, ask for the same.
pub proof fn zoom_keeps_start_size(
    s: NebulaRuntimeSettings,
    zoomed: NebulaRuntimeSettings,
    input: BootInput,
    zoomed_input: BootInput,
)
    requires
        zoomed == (NebulaRuntimeSettings { font_size: zoomed.font_size, ..s }),
        zoomed_input == (BootInput {
            font_size_bits: zoomed_input.font_size_bits,
            cell: zoomed_input.cell,
            grid: zoomed_input.grid,
            ..input
        }),
        input.base_cell is Some,
    ensures
        start_dimensions(zoomed_input) == start_dimensions(input),
        start_cell(zoomed_input) == start_cell(input),
        zoomed.panels.sidebar_w == s.panels.sidebar_w,
{
}

/// The size of a new window in cells depends on the configured size alone.
pub proof fn start_dimensions_are_configured(a: BootInput, b: BootInput)
    requires
        a.config_dimensions == b.config_dimensions,
    ensures
        start_dimensions(a) == start_dimensions(b),
{
}

/// A new window already uses the theme that its settings ask for.
pub proof fn new_window_uses_wanted_theme(d: Display, s: NebulaRuntimeSettings, input: BootInput)
    requires
        d.is_fresh(s, input),
    ensures
        d.theme.theme == d.theme.wanted(),
        d.theme.follow_system ==> d.theme.background == Some(d.theme.theme.term_bg),
{
}

/// A window starts as it was configured to: in the configured size, or that of 116 columns
/// and 30 lines.
pub proof fn window_starts_as_configured(input: BootInput, d: (usize, usize), c: (Px, Px))
    ensures
        input.config_dimensions == Some(d) ==> start_dimensions(input) == d,
        input.config_dimensions is None ==> start_dimensions(input) == (116usize, 30usize),
        input.base_cell == Some(c) ==> start_cell(input) == c,
        input.base_cell is None ==> start_cell(input) == input.cell,
{
}

/// A window that is a tab of another one starts as that one is. Else it starts maximized
/// where the compositor lets it, and in full screen on the systems that do it this way.
pub proof fn startup_mode_is_honoured(
    mode: StartupMode,
    platform: Platform,
    tabbed: bool,
    wayland: bool,
)
    ensures
        ({
            let a = startup_action(mode, platform, tabbed, wayland);
            &&& tabbed ==> a is Nothing
            &&& mode is Windowed ==> a is Nothing
            &&& a is Maximize <==> mode is Maximized && !tabbed && !wayland
            &&& a is Fullscreen <==> mode is Fullscreen && !tabbed && platform is Windows
            &&& a is SimpleFullscreen <==> mode is SimpleFullscreen && !tabbed && platform is MacOs
        }),
{
}

} // verus!
