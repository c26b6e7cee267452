//! The window as a whole, and what spans several of its parts.
use crate::backup::{BackupCommit, BackupState, BackupTarget, BACKUP_SLOTS};
use crate::color::Px;
use crate::config::Profile;
use crate::frame::FrameState;
use crate::fx::{Fx, Requests};
use crate::hosts::HostState;
use crate::keymap::KeymapState;
use crate::lang::UiLanguage;
use crate::look::LookState;
use crate::modal::NebulaConfirm;
use crate::page::{NebulaSettingsSection, SettingsDropdown, SettingsUi, TextDrag};
use crate::panels::{PanelState, SftpState, SidebarState};
use crate::prefs::{Choices, Switches};
use crate::providers::ProviderState;
use crate::proxy::ProxyState;
use crate::settings::{NebulaRuntimeSettings, ProxyReading};
use crate::shells::ShellState;
use crate::slots::slot_texts;
use crate::sync::{SyncCommit, SyncState};
use crate::tabs::TabState;
use crate::theme::{SystemTheme, ThemeState};
use vstd::prelude::*;

verus! {

/// A terminal window. `mtime` is when the settings file was written, as of the last look.
#[derive(Debug)]
pub struct Display {
    pub language_preference: u8,
    pub language: UiLanguage,
    pub mtime: Option<u64>,
    pub ui: SettingsUi,
    pub theme: ThemeState,
    pub switches: Switches,
    pub choices: Choices,
    pub look: LookState,
    pub shells: ShellState,
    pub hosts: HostState,
    pub tabs: TabState,
    pub panels: PanelState,
    pub sidebar: SidebarState,
    pub sftp: SftpState,
    pub keymap: KeymapState,
    pub proxy: ProxyState,
    pub providers: ProviderState,
    pub sync: SyncState,
    pub backup: BackupState,
    pub confirm: Option<NebulaConfirm>,
    pub frame: FrameState,
    pub config_paths: Vec<String>,
    pub highlight_damage: bool,
}

/// What only the surroundings know when the settings are read again: the language that
/// the choice stands for, the theme that the window reports, the fonts that come with the
/// program, whether a panel width differs by enough, and what the proxy address says.
#[derive(Debug)]
pub struct ReloadInput {
    pub language: UiLanguage,
    pub window_theme: Option<SystemTheme>,
    pub installed: Option<Vec<String>>,
    pub required: String,
    pub panels_resized: bool,
    pub proxy: ProxyReading,
}

/// The field that the input method belongs to while the settings are open.
#[derive(Clone, Copy, Debug, PartialEq, Eq, Structural)]
pub enum ImeTarget {
    Terminal,
    Unchanged,
    FontSearch,
    KeymapSearch,
    Proxy(usize),
    Provider(usize),
}

/// What is stored for the sync form.
#[derive(Debug)]
pub struct StoredSync {
    pub url: String,
    pub username: String,
    pub auto_pull: bool,
    pub password_set: bool,
    pub passphrase_set: bool,
}

/// What is stored for the backup form.
#[derive(Debug)]
pub struct StoredBackup {
    pub target: BackupTarget,
    pub slots: Vec<Option<String>>,
    pub secret_set: bool,
}

impl Display {
    pub open spec fn wf(self) -> bool {
        &&& self.tabs.wf()
        &&& self.keymap.wf()
        &&& self.proxy.wf()
        &&& self.providers.wf()
        &&& self.sync.wf()
        &&& self.backup.wf()
    }

    /// `s` is what is kept of this window.
    pub open spec fn kept(self, s: NebulaRuntimeSettings) -> bool {
        &&& s.language == self.language_preference
        &&& s.switches == self.switches
        &&& s.choices == self.choices
        &&& s.theme.preference == self.theme.preference
        &&& s.theme.follow_system == self.theme.follow_system
        &&& s.theme.background == self.theme.background
        &&& s.shell.family == self.shells.family
        &&& s.shell.shell_id == self.shells.shell_id
        &&& s.shell.startup_directory == self.shells.startup_directory
        &&& s.font_family == self.ui.font.family
        &&& s.look.opacity == self.look.opacity
        &&& s.look.image == self.look.image
        &&& s.look.image_opacity == self.look.image_opacity
        &&& s.hosts.pinned@ == self.hosts.pinned@
        &&& s.hosts.saved@ == self.hosts.saved@
        &&& s.hosts.hidden@ == self.hosts.hidden@
        &&& s.panels.sidebar_w == self.panels.sidebar_w
        &&& s.panels.drawer_w == self.panels.drawer_w
        &&& s.panels.hosts_band == self.panels.hosts_band
        &&& s.keys.keybinds@ == self.keymap.keybinds@
        &&& s.keys.quick_hotkey == self.keymap.quick_hotkey
        &&& s.proxy.mode == self.proxy.mode
        &&& s.proxy.url == self.proxy.url
        &&& s.proxy.no_proxy == self.proxy.no_proxy
    }

    /// What is to be written down. `font_size` is the size of the font at a scale of one.
    pub fn persist_nebula_settings(&self, font_size: Px) -> (s: NebulaRuntimeSettings)
        ensures
            self.kept(s),
            s.font_size == Some(font_size),
    {
        NebulaRuntimeSettings {
            language: self.language_preference,
            switches: self.switches,
            choices: self.choices,
            theme: self.theme.settings(),
            shell: self.shells.settings(),
            font_family: self.ui.font.family.clone(),
            font_size: Some(font_size),
            look: self.look.settings(),
            hosts: self.hosts.settings(),
            panels: self.panels.settings(),
            keys: self.keymap.settings(),
            proxy: self.proxy.settings(),
        }
    }

    /// Takes over when the settings were written, so that they are not read back.
    pub fn settings_written(&mut self, mtime: Option<u64>)
        ensures
            *final(self) == (Display { mtime, ..*old(self) }),
    {
        self.mtime = mtime;
    }

    /// `now` is this window after it took the kept settings over.
    pub open spec fn reloaded(
        self,
        now: Display,
        mtime: Option<u64>,
        s: NebulaRuntimeSettings,
        input: ReloadInput,
    ) -> bool {
        &&& now.language_preference == s.language
        &&& now.language == input.language
        &&& now.mtime == mtime
        &&& now.ui.page == self.ui.page
        &&& now.ui.color == self.ui.color
        &&& self.ui.font.reloaded(now.ui.font, s.font_family, input.installed, input.required@)
        &&& now.theme == self.theme.reloaded(s.theme, input.window_theme)
        &&& now.switches == self.switches.reloaded(s.switches)
        &&& now.choices == self.choices.reloaded(s.choices)
        &&& now.look == (LookState {
            opacity: s.look.opacity,
            image: s.look.image,
            image_opacity: s.look.image_opacity,
            ..self.look
        })
        &&& now.shells == (ShellState {
            family: s.shell.family,
            shell_id: s.shell.shell_id,
            startup_directory: s.shell.startup_directory,
            ..self.shells
        })
        &&& now.hosts == (HostState {
            pinned: s.hosts.pinned,
            saved: s.hosts.saved,
            hidden: s.hosts.hidden,
            ..self.hosts
        })
        &&& now.panels == (PanelState {
            sidebar_w: s.panels.sidebar_w,
            drawer_w: s.panels.drawer_w,
            hosts_band: s.panels.hosts_band,
            ..self.panels
        })
        &&& self.keymap.reloaded(now.keymap, s.keys)
        &&& self.proxy.reloaded(now.proxy, s.proxy, input.proxy)
        &&& now.tabs == self.tabs
        &&& now.sidebar == self.sidebar
        &&& now.sftp == self.sftp
        &&& now.providers == self.providers
        &&& now.sync == self.sync
        &&& now.backup == self.backup
        &&& now.confirm == self.confirm
        &&& now.frame == self.frame
        &&& now.config_paths == self.config_paths
        &&& now.highlight_damage == self.highlight_damage
    }

    /// What taking the kept settings over asks for, part by part.
    pub open spec fn reload_fx(
        self,
        now: Display,
        s: NebulaRuntimeSettings,
        input: ReloadInput,
        fx: Fx,
    ) -> Fx {
        let spoken = fx.asking(Requests { set_language: true, ..fx.requests });
        let themed = self.theme.reload_fx(s.theme, input.window_theme, spoken);
        let switched = self.switches.reload_fx(s.switches, themed);
        let lettered = self.ui.font.reload_fx(now.ui.font, switched);
        let sized = if input.panels_resized {
            lettered.reflowed()
        } else {
            lettered
        };
        let proxied = ProxyState::reload_fx(s.proxy, sized.merging());
        self.look.reload_fx(s.look, proxied).marked()
    }

    /// Reads the settings again where the file changed. The result tells whether it did.
    pub fn reload_nebula_settings_if_changed(
        &mut self,
        mtime: Option<u64>,
        settings: NebulaRuntimeSettings,
        input: ReloadInput,
        fx: &mut Fx,
    ) -> (r: bool)
        requires
            old(self).wf(),
        ensures
            final(self).wf(),
            r == (mtime != old(self).mtime),
            !r ==> *final(self) == *old(self) && *final(fx) == *old(fx),
            r ==> old(self).reloaded(*final(self), mtime, settings, input),
            r ==> *final(fx) == old(self).reload_fx(*final(self), settings, input, *old(fx)),
    {
        let same: bool = match (mtime, self.mtime) {
            (Some(a), Some(b)) => a == b,
            (None, None) => true,
            _ => false,
        };
        if same {
            return false;
        }
        self.language_preference = settings.language;
        self.language = input.language;
        fx.ask(Requests { set_language: true, ..fx.requests });
        self.theme.reload(settings.theme, input.window_theme, fx);
        self.switches.reload(settings.switches, fx);
        self.choices.reload(settings.choices);
        self.shells.reload(settings.shell);
        self.ui.font.reload(settings.font_family, input.installed, input.required.as_str(), fx);
        self.panels.reload(settings.panels, input.panels_resized, fx);
        self.hosts.reload(settings.hosts, fx);
        self.keymap.reload(settings.keys);
        self.proxy.reload(settings.proxy, input.proxy, fx);
        self.look.reload(settings.look, fx);
        self.mtime = mtime;
        fx.mark();
        true
    }

    /// Turns to a section of the settings, at its top. The network page looks for proxies
    /// where none are known; the page of providers shows the first one where none is
    /// active.
    pub fn select_settings_section(&mut self, section: NebulaSettingsSection, fx: &mut Fx)
        requires
            old(self).wf(),
        ensures
            final(self).wf(),
            old(self).ui.turned(final(self).ui, section),
            section is Proxy ==> final(self).proxy == old(self).proxy.searched(),
            !(section is Proxy) ==> final(self).proxy == old(self).proxy,
            section is Providers ==> old(self).providers.opened(final(self).providers),
            !(section is Providers) ==> final(self).providers == old(self).providers,
            *final(self) == (Display {
                ui: final(self).ui,
                proxy: final(self).proxy,
                providers: final(self).providers,
                ..*old(self)
            }),
            ({
                let turned = old(self).ui.turned_fx(section, *old(fx));
                *final(fx) == (if section is Proxy {
                    old(self).proxy.searched_fx(turned)
                } else {
                    turned
                }).following()
            }),
    {
        self.ui.turn_to(section, fx);
        if section == NebulaSettingsSection::Proxy {
            self.proxy.look_for_proxies(fx);
        }
        if section == NebulaSettingsSection::Providers {
            self.providers.open_page();
        }
        fx.follow_caret();
    }

    /// Closes the drawer for a page that is no terminal. Remote files in it stay connected
    /// for the way back.
    fn close_side_panel_for_special_tab(&mut self, fx: &mut Fx)
        ensures
            *final(self) == (Display { panels: old(self).panels.shut(), ..*old(self) }),
            *final(fx) == old(self).panels.shut_fx(*old(fx)),
    {
        self.panels.close_drawer(fx);
    }

    /// Whether `now` is this window once the settings page was opened: no drawer beside it,
    /// and where it was closed, its forms as stored, at its top.
    pub open spec fn settings_opened(self, now: Display, sync: StoredSync, backup: StoredBackup) -> bool {
        let opens = !self.ui.page.open;
        &&& now == (Display {
            panels: self.panels.shut(),
            ui: now.ui,
            sync: now.sync,
            backup: now.backup,
            ..self
        })
        &&& !opens ==> now.ui == self.ui && now.sync == self.sync && now.backup == self.backup
        &&& opens ==> {
            &&& now.ui == self.ui.opened()
            &&& now.sync == (SyncState {
                inputs: now.sync.inputs,
                auto_pull: sync.auto_pull,
                password_set: sync.password_set,
                passphrase_set: sync.passphrase_set,
                focus: None,
                ..self.sync
            })
            &&& slot_texts(now.sync.inputs@) == seq![
                sync.url@,
                sync.username@,
                Seq::<char>::empty(),
                Seq::<char>::empty(),
            ]
            &&& self.backup.loaded(now.backup, backup.target, backup.slots@, backup.secret_set)
        }
    }

    /// What opening the settings page asks for.
    pub open spec fn settings_opened_fx(self, fx: Fx) -> Fx {
        let shut = self.panels.shut_fx(fx);
        if self.ui.page.open {
            shut
        } else if self.ui.page.section is Proxy {
            shut.asking(
                Requests { probe_system_proxy: true, ..shut.requests },
            ).following().marked()
        } else {
            shut.following().marked()
        }
    }

    fn open_settings_tab(&mut self, sync: StoredSync, backup: StoredBackup, fx: &mut Fx)
        requires
            old(self).wf(),
            backup.target.field_count <= BACKUP_SLOTS,
        ensures
            final(self).wf(),
            old(self).settings_opened(*final(self), sync, backup),
            *final(fx) == old(self).settings_opened_fx(*old(fx)),
    {
        let opens: bool = !self.ui.page.open;
        self.close_side_panel_for_special_tab(fx);
        if !opens {
            return;
        }
        let probes: bool = self.ui.page.section == NebulaSettingsSection::Proxy;
        self.ui.open();
        self.sync.load_sync_state(
            sync.url.as_str(),
            sync.username.as_str(),
            sync.auto_pull,
            sync.password_set,
            sync.passphrase_set,
        );
        self.backup.load_backup_remote_state(backup.target, &backup.slots, backup.secret_set);
        if probes {
            fx.ask(Requests { probe_system_proxy: true, ..fx.requests });
        }
        fx.follow_caret();
        fx.mark();
    }

    /// Whether `now` is this window once the settings page was closed: a waiting backup is
    /// dropped, focused fields of its forms are left, and nothing of it stays hovered, open
    /// or waited for.
    pub open spec fn settings_closed(self, now: Display, sync: SyncCommit, backup: BackupCommit) -> bool {
        &&& now == (Display {
            ui: now.ui,
            sync: now.sync,
            backup: now.backup,
            keymap: now.keymap,
            confirm: now.confirm,
            ..self
        })
        &&& now.ui == self.ui.closed()
        &&& now.keymap == self.keymap.uncaptured()
        &&& self.sync.page_left(now.sync, sync)
        &&& self.backup.page_left(now.backup, backup)
        &&& now.confirm == (if self.backup.operation is Some {
            None
        } else {
            self.confirm
        })
    }

    /// What closing the settings page asks for.
    pub open spec fn settings_closed_fx(self, fx: Fx) -> Fx {
        self.sync.page_left_fx(self.backup.page_left_fx(fx)).following().marked()
    }

    fn close_settings_tab(&mut self, fx: &mut Fx) -> (c: (SyncCommit, BackupCommit))
        requires
            old(self).wf(),
        ensures
            final(self).wf(),
            !old(self).ui.page.open ==> *final(self) == *old(self) && *final(fx) == *old(fx)
                && c.0 is Nothing && c.1 is Nothing,
            old(self).ui.page.open ==> old(self).settings_closed(*final(self), c.0, c.1)
                && *final(fx) == old(self).settings_closed_fx(*old(fx)),
    {
        if !self.ui.page.open {
            return (SyncCommit::Nothing, BackupCommit::Nothing);
        }
        let backup = self.backup.leave_page(&mut self.confirm, fx);
        let sync = self.sync.leave_page(fx);
        self.ui.close();
        self.keymap.drop_capture();
        fx.follow_caret();
        fx.mark();
        (sync, backup)
    }

    /// Opens or closes the settings page. `sync` and `backup` are what is stored for its
    /// forms. The result is what leaving focused fields of these forms asks for.
    pub fn set_settings_tab_active(
        &mut self,
        active: bool,
        sync: StoredSync,
        backup: StoredBackup,
        fx: &mut Fx,
    ) -> (c: (SyncCommit, BackupCommit))
        requires
            old(self).wf(),
            backup.target.field_count <= BACKUP_SLOTS,
        ensures
            final(self).wf(),
            active ==> {
                &&& old(self).settings_opened(*final(self), sync, backup)
                &&& *final(fx) == old(self).settings_opened_fx(*old(fx))
                &&& c.0 is Nothing
                &&& c.1 is Nothing
            },
            !active && old(self).ui.page.open ==> {
                &&& old(self).settings_closed(*final(self), c.0, c.1)
                &&& *final(fx) == old(self).settings_closed_fx(*old(fx))
            },
            !active && !old(self).ui.page.open ==> {
                &&& *final(self) == *old(self)
                &&& *final(fx) == *old(fx)
                &&& c.0 is Nothing
                &&& c.1 is Nothing
            },
    {
        if active {
            self.open_settings_tab(sync, backup, fx);
            (SyncCommit::Nothing, BackupCommit::Nothing)
        } else {
            self.close_settings_tab(fx)
        }
    }

    /// Tells that a page other than a terminal is shown, or none any more. Such a page has
    /// no drawer and no message bar; leaving it drops a waiting backup and closes the
    /// settings.
    pub fn set_special_tab_active(&mut self, active: bool, fx: &mut Fx)
        ensures
            active ==> {
                &&& *final(self) == (Display {
                    panels: old(self).panels.shut(),
                    ui: old(self).ui.specially_shown(),
                    ..*old(self)
                })
                &&& *final(fx) == old(self).panels.shut_fx(*old(fx))
            },
            !active ==> {
                &&& *final(self) == (Display {
                    ui: old(self).ui.specially_left(),
                    backup: final(self).backup,
                    confirm: final(self).confirm,
                    ..*old(self)
                })
                &&& old(self).backup.operation_dropped(final(self).backup)
                &&& final(self).confirm == (if old(self).backup.operation is Some {
                    None
                } else {
                    old(self).confirm
                })
                &&& *final(fx) == (if old(self).backup.operation is Some {
                    old(fx).redrawn()
                } else {
                    *old(fx)
                })
            },
    {
        if active {
            self.ui.show_special();
            self.close_side_panel_for_special_tab(fx);
        } else {
            self.ui.leave_special();
            if self.backup.operation.is_some() {
                self.backup.cancel_backup_operation(&mut self.confirm, fx);
            }
        }
    }

    /// Speaks another language; `language` is what the choice stands for.
    pub fn set_ui_language(&mut self, preference: u8, language: UiLanguage, fx: &mut Fx)
        ensures
            preference == old(self).language_preference ==> *final(self) == *old(self) && *final(fx)
                == *old(fx),
            preference != old(self).language_preference ==> *final(self) == (Display {
                language_preference: preference,
                language,
                ..*old(self)
            }) && *final(fx) == old(fx).asking(
                Requests { set_language: true, ..old(fx).requests },
            ).saved().marked(),
    {
        if self.language_preference == preference {
            return;
        }
        self.language_preference = preference;
        self.language = language;
        fx.ask(Requests { set_language: true, ..fx.requests });
        fx.save();
        fx.mark();
    }

    pub fn ui_language(&self) -> (l: UiLanguage)
        ensures
            l == self.language,
    {
        self.language
    }

    /// The field that the input method belongs to.
    pub open spec fn ime_target(self) -> ImeTarget {
        if !self.ui.page.open {
            ImeTarget::Terminal
        } else if self.ui.page.dropdown == Some(SettingsDropdown::Font) {
            ImeTarget::FontSearch
        } else if self.keymap.search_focus && self.keymap.capture is None {
            ImeTarget::KeymapSearch
        } else if self.proxy.focus is Some {
            ImeTarget::Proxy(self.proxy.focus->0)
        } else if self.providers.focus is Some {
            ImeTarget::Provider(self.providers.focus->0)
        } else {
            ImeTarget::Unchanged
        }
    }

    /// Decides which field the input method follows: one at a time, the font search before
    /// the key search, and the network page before the providers. With the settings closed
    /// it goes back to the terminal.
    pub fn update_settings_ime_cursor(&self) -> (t: ImeTarget)
        ensures
            t == self.ime_target(),
    {
        if !self.ui.page.open {
            return ImeTarget::Terminal;
        }
        if let Some(SettingsDropdown::Font) = self.ui.page.dropdown {
            return ImeTarget::FontSearch;
        }
        if self.keymap.keymap_search_active(self.ui.page.open) {
            return ImeTarget::KeymapSearch;
        }
        if let Some(i) = self.proxy.focus {
            return ImeTarget::Proxy(i);
        }
        if let Some(i) = self.providers.focus {
            return ImeTarget::Provider(i);
        }
        ImeTarget::Unchanged
    }

    /// Stretches the selection of the field that is dragged in up to the character `at`,
    /// `None` where the field is not on the page. The result tells whether one is.
    pub fn settings_text_drag_to(&mut self, at: Option<usize>, fx: &mut Fx) -> (r: bool)
        requires
            old(self).wf(),
            old(self).ui.font.query.wf(),
            at is None ==> (old(self).ui.page.text_drag matches Some(d) ==> d is Provider),
        ensures
            final(self).wf(),
            r == old(self).ui.page.text_drag is Some,
            match old(self).ui.page.text_drag {
                None => *final(self) == *old(self) && *final(fx) == *old(fx),
                Some(TextDrag::Font) => {
                    &&& old(self).ui.font.placed(final(self).ui.font, at->0, true)
                    &&& *final(self) == (Display {
                        ui: (SettingsUi { font: final(self).ui.font, ..old(self).ui }),
                        ..*old(self)
                    })
                    &&& *final(fx) == old(fx).touched().following()
                },
                Some(TextDrag::Keymap) => {
                    &&& old(self).keymap.placed(final(self).keymap, at->0, true)
                    &&& *final(self) == (Display { keymap: final(self).keymap, ..*old(self) })
                    &&& *final(fx) == old(fx).touched().following()
                },
                Some(TextDrag::Proxy(i)) => {
                    &&& old(self).proxy.placed(final(self).proxy, i, at->0, true)
                    &&& *final(self) == (Display { proxy: final(self).proxy, ..*old(self) })
                    &&& *final(fx) == old(self).proxy.placed_fx(i, *old(fx)).following()
                },
                Some(TextDrag::Provider(i)) => {
                    &&& old(self).providers.placed(final(self).providers, i, at, true)
                    &&& *final(self) == (Display {
                        providers: final(self).providers,
                        ..*old(self)
                    })
                    &&& *final(fx) == old(self).providers.placed_fx(i, at, *old(fx)).following()
                },
            },
    {
        let drag: TextDrag = match self.ui.page.text_drag {
            Some(d) => d,
            None => {
                return false;
            },
        };
        match (drag, at) {
            (TextDrag::Font, Some(to)) => {
                self.ui.font.font_query_place(to, true, fx);
            },
            (TextDrag::Keymap, Some(to)) => {
                self.keymap.keymap_search_place(to, true, fx);
            },
            (TextDrag::Proxy(i), Some(to)) => {
                self.proxy.ssh_proxy_field_place(i, to, true, fx);
            },
            (TextDrag::Provider(i), _) => {
                self.providers.provider_field_place(i, at, true, fx);
            },
            _ => {},
        }
        fx.follow_caret();
        true
    }

    /// Sends backups over another protocol; `None` where there is no such row. A focused
    /// field is left first: what that asks for is the result, and has to be done before
    /// this is tried again. `saved` tells how storing the protocol went, and `stored` is
    /// the form for it. The list closes.
    pub fn set_backup_protocol_option(
        &mut self,
        known: bool,
        saved: Result<(), String>,
        stored: StoredBackup,
        fx: &mut Fx,
    ) -> (r: Option<BackupCommit>)
        requires
            old(self).backup.wf(),
            stored.target.field_count <= BACKUP_SLOTS,
        ensures
            final(self).backup.wf(),
            !known ==> r is None && *final(self) == *old(self) && *final(fx) == *old(fx),
            known && old(self).backup.focus is Some ==> {
                &&& r matches Some(c) && old(self).backup.field_left(final(self).backup, c)
                &&& *final(self) == (Display { backup: final(self).backup, ..*old(self) })
                &&& *final(fx) == old(fx).marked()
            },
            known && old(self).backup.focus is None ==> {
                &&& r is None
                &&& old(self).ui.dropdown_closed(final(self).ui)
                &&& (BackupState {
                    status: match saved {
                        Ok(_) => old(self).backup.status,
                        Err(e) => Some((e, true)),
                    },
                    status_remote: old(self).backup.status_remote || saved is Err,
                    ..old(self).backup
                }).loaded(final(self).backup, stored.target, stored.slots@, stored.secret_set)
                &&& *final(self) == (Display {
                    ui: final(self).ui,
                    backup: final(self).backup,
                    ..*old(self)
                })
                &&& *final(fx) == old(self).ui.closed_fx(*old(fx)).marked()
            },
    {
        if !known {
            return None;
        }
        if self.backup.focus.is_some() {
            return Some(self.backup.commit_backup_remote_field(fx));
        }
        if let Err(e) = saved {
            self.backup.remote_failed(e);
        }
        self.backup.load_backup_remote_state(stored.target, &stored.slots, stored.secret_set);
        self.ui.close_settings_dropdown(fx);
        fx.mark();
        None
    }

    /// Takes over a new configuration: its files, its profiles and whether damage is shown.
    /// The bell follows it, and its colors are put in force in the form of the theme in use.
    pub fn update_config(
        &mut self,
        config_paths: Vec<String>,
        profiles: Vec<Profile>,
        highlight_damage: bool,
        fx: &mut Fx,
    )
        ensures
            *final(self) == (Display {
                config_paths,
                shells: (ShellState { profiles, ..old(self).shells }),
                highlight_damage,
                ..*old(self)
            }),
            *final(fx) == old(fx).asking(
                Requests {
                    recolor: Some(old(self).theme.theme),
                    update_bell: true,
                    ..old(fx).requests
                },
            ),
    {
        self.config_paths = config_paths;
        self.shells.profiles = profiles;
        self.highlight_damage = highlight_damage;
        fx.ask(
            Requests { recolor: Some(self.theme.theme), update_bell: true, ..fx.requests },
        );
    }

    /// Whether a text field outside the terminal has the keyboard, so that its caret has
    /// to blink. The arguments are the fields of the palette, of the remote files and of the
    /// host editor.
    pub fn chrome_editor_active(
        &self,
        palette_open: bool,
        sftp_editor: bool,
        host_editor: bool,
    ) -> (r: bool)
        ensures
            r == (self.tabs.rename is Some || palette_open || self.panels.search_focus
                || self.panels.commit_focus || (self.sftp.destination is Some && sftp_editor)
                || host_editor),
    {
        self.tabs.rename.is_some() || palette_open || self.panels.search_focus
            || self.panels.commit_focus || (self.sftp.destination.is_some() && sftp_editor)
            || host_editor
    }

    /// What the switches of the settings page show, in their order.
    pub open spec fn toggle_targets(self) -> Seq<bool> {
        let s = self.switches;
        let known = self.providers.active() is Some;
        let p = self.providers.edited();
        seq![
            self.theme.follow_system,
            s.suggestions,
            s.cursor_blink,
            s.copy_on_select,
            s.panel_resize,
            s.cjk_bold_regular,
            s.fetch,
            s.powerline,
            s.blur,
            s.keep_session,
            s.restore_session,
            self.sync.auto_pull,
            s.cover_chrome,
            known && p.codex_goals,
            known && p.codex_remote_compaction,
            s.resume_ai,
            s.tray,
        ]
    }

    pub fn settings_toggle_targets(&self) -> (v: Vec<bool>)
        ensures
            v@ == self.toggle_targets(),
    {
        let s: Switches = self.switches;
        let mut goals: bool = false;
        let mut remote: bool = false;
        if let Some(i) = self.providers.provider_edit_index() {
            goals = self.providers.list[i].codex_goals;
            remote = self.providers.list[i].codex_remote_compaction;
        }
        let v: Vec<bool> = vec![
            self.theme.follow_system,
            s.suggestions,
            s.cursor_blink,
            s.copy_on_select,
            s.panel_resize,
            s.cjk_bold_regular,
            s.fetch,
            s.powerline,
            s.blur,
            s.keep_session,
            s.restore_session,
            self.sync.auto_pull,
            s.cover_chrome,
            goals,
            remote,
            s.resume_ai,
            s.tray,
        ];
        proof {
            assert(v@ =~= self.toggle_targets());
        }
        v
    }
}

/// Taking over what this window just wrote down changes nothing that is kept: its own
/// write never undoes a setting.
pub proof fn reading_back_keeps_settings(
    d: Display,
    now: Display,
    mtime: Option<u64>,
    s: NebulaRuntimeSettings,
    input: ReloadInput,
)
    requires
        d.kept(s),
        d.theme.theme == d.theme.wanted(),
        d.theme.follow_system ==> d.theme.background == Some(d.theme.theme.term_bg),
        d.reloaded(now, mtime, s, input),
    ensures
        now.kept(s),
        now.theme == d.theme,
{
}

/// Each switch of the settings shows its own setting, in the order of the page.
pub proof fn switches_show_their_settings(d: Display)
    ensures
        ({
            let t = d.toggle_targets();
            let s = d.switches;
            &&& t.len() == 17
            &&& t[0] == d.theme.follow_system && t[1] == s.suggestions && t[2] == s.cursor_blink
            &&& t[3] == s.copy_on_select && t[4] == s.panel_resize && t[5] == s.cjk_bold_regular
            &&& t[6] == s.fetch && t[7] == s.powerline && t[8] == s.blur
            &&& t[9] == s.keep_session && t[10] == s.restore_session && t[11] == d.sync.auto_pull
            &&& t[12] == s.cover_chrome && t[15] == s.resume_ai && t[16] == s.tray
            &&& d.providers.active() is None ==> !t[13] && !t[14]
            &&& d.providers.active() is Some ==> t[13] == d.providers.edited().codex_goals && t[14]
                == d.providers.edited().codex_remote_compaction
        }),
{
}

/// The input method writes to the terminal unless the settings are open, and there to the
/// field that has the keyboard: a font that is searched for first, then a key, the proxy and
/// the provider.
pub proof fn input_method_follows_the_keyboard(d: Display)
    ensures
        d.ime_target() is Terminal <==> !d.ui.page.open,
        d.ui.page.open ==> (d.ime_target() is FontSearch <==> d.ui.page.dropdown == Some(
            SettingsDropdown::Font,
        )),
        d.ime_target() is KeymapSearch ==> d.keymap.search_focus && d.keymap.capture is None,
        d.ime_target() matches ImeTarget::Proxy(i) ==> d.proxy.focus == Some(i),
        d.ime_target() matches ImeTarget::Provider(i) ==> d.providers.focus == Some(i)
            && d.proxy.focus is None,
        d.ui.page.open && d.ui.page.dropdown is None && !d.keymap.search_focus && d.proxy.focus
            is Some ==> d.ime_target() is Proxy,
        d.ui.page.open && d.ui.page.dropdown is None && !d.keymap.search_focus && d.proxy.focus
            is None && d.providers.focus is Some ==> d.ime_target() is Provider,
        d.ime_target() is Unchanged ==> d.proxy.focus is None && d.providers.focus is None,
{
}

/// Settings that are opened show what is stored, without the secrets, and nothing that was
/// typed before; they close the drawer. Opening them again changes nothing.
pub proof fn opened_settings_show_what_is_stored(
    d: Display,
    now: Display,
    sync: StoredSync,
    backup: StoredBackup,
)
    requires
        d.settings_opened(now, sync, backup),
    ensures
        !now.panels.drawer_open,
        d.ui.page.open ==> now.ui == d.ui && now.sync == d.sync && now.backup == d.backup,
        !d.ui.page.open ==> now.ui.page.open && now.sync.focus is None && now.backup.focus is None,
        !d.ui.page.open ==> now.sync.inputs@.len() == 4 && now.sync.inputs@[0]@ == sync.url@
            && now.sync.inputs@[1]@ == sync.username@ && now.sync.inputs@[2]@.len() == 0
            && now.sync.inputs@[3]@.len() == 0,
        !d.ui.page.open ==> now.sync.auto_pull == sync.auto_pull && now.sync.password_set
            == sync.password_set && now.sync.passphrase_set == sync.passphrase_set,
        now.tabs == d.tabs && now.hosts == d.hosts && now.theme == d.theme && now.switches
            == d.switches && now.proxy == d.proxy && now.keymap == d.keymap,
{
    if !d.ui.page.open {
        let t = slot_texts(now.sync.inputs@);
        assert(t.len() == 4);
        assert(t[0] == now.sync.inputs@[0]@ && t[1] == now.sync.inputs@[1]@ && t[2]
            == now.sync.inputs@[2]@ && t[3] == now.sync.inputs@[3]@);
    }
}

/// Settings that are closed keep nothing half done: no list, no key that is waited for, no
/// field with the keyboard and no passphrase. Everything else of the window stays.
pub proof fn closed_settings_leave_nothing_open(
    d: Display,
    now: Display,
    sync: SyncCommit,
    backup: BackupCommit,
)
    requires
        d.settings_closed(now, sync, backup),
    ensures
        !now.ui.page.open && now.ui.page.dropdown is None,
        now.keymap.capture is None && now.keymap.keybinds == d.keymap.keybinds,
        now.sync.focus is None && now.backup.focus is None && now.backup.operation is None,
        d.backup.operation is Some ==> now.confirm is None && now.backup.passphrase@.len() == 0,
        d.backup.operation is None ==> now.confirm == d.confirm,
        now.tabs == d.tabs && now.hosts == d.hosts && now.theme == d.theme && now.switches
            == d.switches && now.proxy == d.proxy && now.panels == d.panels,
{
    crate::backup::left_page_forgets_its_work(d.backup, now.backup, backup);
    reveal(SyncState::page_left);
}

/// What a changed file says is taken for every setting of it, and nothing else of the window
/// changes.
pub proof fn reread_settings_are_taken(
    d: Display,
    now: Display,
    mtime: Option<u64>,
    s: NebulaRuntimeSettings,
    input: ReloadInput,
)
    requires
        d.reloaded(now, mtime, s, input),
    ensures
        now.mtime == mtime && now.language_preference == s.language,
        now.look.opacity == s.look.opacity && now.look.image == s.look.image
            && now.look.image_opacity == s.look.image_opacity && now.look.drag == d.look.drag,
        now.shells.family == s.shell.family && now.shells.shell_id == s.shell.shell_id
            && now.shells.startup_directory == s.shell.startup_directory && now.shells.profiles
            == d.shells.profiles,
        now.hosts.pinned == s.hosts.pinned && now.hosts.saved == s.hosts.saved && now.hosts.hidden
            == s.hosts.hidden && now.hosts.undo == d.hosts.undo,
        now.panels.sidebar_w == s.panels.sidebar_w && now.panels.drawer_w == s.panels.drawer_w
            && now.panels.hosts_band == s.panels.hosts_band && now.panels.drawer_open
            == d.panels.drawer_open,
        now.keymap.keybinds == s.keys.keybinds && now.keymap.quick_hotkey@ == s.keys.quick_hotkey@,
        now.proxy.mode == s.proxy.mode && now.proxy.url == s.proxy.url && now.proxy.no_proxy
            == s.proxy.no_proxy,
        now.ui.font.family == s.font_family,
        now.theme.preference == s.theme.preference && now.theme.follow_system
            == s.theme.follow_system,
        now.tabs == d.tabs && now.providers == d.providers && now.sync == d.sync && now.backup
            == d.backup && now.confirm == d.confirm && now.ui.page == d.ui.page,
{
}

/// Settings that are written are read back as they are: a file with what was written changes
/// no setting of the window.
pub proof fn written_settings_are_read_back(
    d: Display,
    font_size: Px,
    s: NebulaRuntimeSettings,
    e: &mut Display,
    mtime: Option<u64>,
    input: ReloadInput,
    fx: &mut Fx,
    r: bool,
)
    requires
        call_ensures(Display::persist_nebula_settings, (&d, font_size), s),
        call_ensures(Display::reload_nebula_settings_if_changed, (e, mtime, s, input, fx), r),
        *old(e) == d,
        d.theme.theme == d.theme.wanted(),
        d.theme.follow_system ==> d.theme.background == Some(d.theme.theme.term_bg),
    ensures
        s.font_size == Some(font_size),
        r <==> mtime != d.mtime,
        !r ==> *final(e) == d,
        r ==> final(e).theme == d.theme && final(e).switches == d.switches && final(e).choices
            == d.choices && final(e).hosts.saved@ == d.hosts.saved@ && final(e).hosts.pinned@
            == d.hosts.pinned@ && final(e).hosts.hidden@ == d.hosts.hidden@,
        r ==> final(e).look.opacity == d.look.opacity && final(e).look.image == d.look.image
            && final(e).panels.sidebar_w == d.panels.sidebar_w && final(e).panels.drawer_w
            == d.panels.drawer_w && final(e).ui.font.family == d.ui.font.family,
        r ==> final(e).keymap.keybinds@ == d.keymap.keybinds@ && final(e).proxy.url == d.proxy.url
            && final(e).proxy.mode == d.proxy.mode && final(e).shells.shell_id == d.shells.shell_id,
        r ==> final(e).mtime == mtime,
{
    if r {
        reading_back_keeps_settings(d, *final(e), mtime, s, input);
        crate::settings::kept_switches_are_stable(d.switches, d.choices, *old(fx));
    }
}

/// A configuration that changed is taken over with its profiles, and has the window drawn in
/// its colors; no setting of the window changes.
pub proof fn changed_configuration_is_taken(
    d: &mut Display,
    config_paths: Vec<String>,
    profiles: Vec<Profile>,
    highlight_damage: bool,
    fx: &mut Fx,
)
    requires
        call_ensures(
            Display::update_config,
            (d, config_paths, profiles, highlight_damage, fx),
            (),
        ),
    ensures
        final(d).config_paths == config_paths && final(d).shells.profiles == profiles
            && final(d).highlight_damage == highlight_damage,
        final(d).theme == old(d).theme && final(d).tabs == old(d).tabs && final(d).hosts
            == old(d).hosts && final(d).switches == old(d).switches && final(d).shells.shell_id
            == old(d).shells.shell_id,
        final(fx).requests.recolor == Some(old(d).theme.theme) && final(fx).requests.update_bell,
{
}

/// Another language is spoken and written down; the same again does nothing.
pub proof fn chosen_language_is_spoken(
    d: &mut Display,
    preference: u8,
    language: UiLanguage,
    fx: &mut Fx,
)
    requires
        call_ensures(Display::set_ui_language, (d, preference, language, fx), ()),
    ensures
        preference != old(d).language_preference ==> final(d).language == language
            && final(d).language_preference == preference && final(fx).persist
            && final(fx).requests.set_language,
        preference == old(d).language_preference ==> *final(d) == *old(d) && *final(fx)
            == *old(fx),
        final(d).theme == old(d).theme && final(d).ui == old(d).ui,
{
}

/// Something is being edited exactly where a name, a search, a message, the palette or an
/// editor has the keyboard.
pub proof fn editing_is_known(
    d: Display,
    palette_open: bool,
    sftp_editor: bool,
    host_editor: bool,
    r: bool,
)
    requires
        call_ensures(Display::chrome_editor_active, (&d, palette_open, sftp_editor, host_editor), r),
    ensures
        palette_open || host_editor || d.tabs.rename is Some || d.panels.search_focus
            || d.panels.commit_focus ==> r,
        sftp_editor && d.sftp.destination is Some ==> r,
        !palette_open && !host_editor && d.tabs.rename is None && !d.panels.search_focus
            && !d.panels.commit_focus && (d.sftp.destination is None || !sftp_editor) ==> !r,
{
}

/// Turning to a section shows it; the pages of proxies and of providers get what they show,
/// and the others leave both alone.
pub proof fn selected_section_is_shown(d: &mut Display, section: NebulaSettingsSection, fx: &mut Fx)
    requires
        call_ensures(Display::select_settings_section, (d, section, fx), ()),
    ensures
        final(d).ui.page.section == section,
        !(section is Proxy) ==> final(d).proxy == old(d).proxy,
        !(section is Providers) ==> final(d).providers == old(d).providers,
        section is Proxy ==> final(fx).requests.probe_system_proxy && (old(d).proxy.found@.len()
            > 0 || final(d).proxy.scanning),
        section is Providers && final(d).providers.active() is Some
            ==> final(d).providers.inputs@[0].text@ == final(d).providers.edited().name@,
        final(d).tabs == old(d).tabs && final(d).hosts == old(d).hosts && final(d).theme
            == old(d).theme && final(d).switches == old(d).switches,
{
}

/// The settings take the window with what is stored and give it back with nothing left open;
/// closing them where they are not open does nothing.
pub proof fn settings_open_and_close(
    d: &mut Display,
    active: bool,
    sync: StoredSync,
    backup: StoredBackup,
    fx: &mut Fx,
    c: (SyncCommit, BackupCommit),
)
    requires
        call_ensures(Display::set_settings_tab_active, (d, active, sync, backup, fx), c),
    ensures
        active ==> final(d).ui.page.open && !final(d).panels.drawer_open && c.0 is Nothing
            && c.1 is Nothing,
        !active ==> !final(d).ui.page.open,
        !active && !old(d).ui.page.open ==> *final(d) == *old(d) && c.0 is Nothing && c.1 is Nothing,
        !active && old(d).ui.page.open ==> final(d).keymap.capture is None
            && final(d).backup.operation is None && final(d).ui.page.dropdown is None,
        final(d).tabs == old(d).tabs && final(d).theme == old(d).theme && final(d).hosts
            == old(d).hosts && final(d).switches == old(d).switches,
{
    if active {
        opened_settings_show_what_is_stored(*old(d), *final(d), sync, backup);
    } else if old(d).ui.page.open {
        closed_settings_leave_nothing_open(*old(d), *final(d), c.0, c.1);
    }
}

/// A page of its own closes the drawer; leaving it drops work that waits for a passphrase
/// and its question.
pub proof fn special_page_is_left_clean(d: &mut Display, active: bool, fx: &mut Fx)
    requires
        call_ensures(Display::set_special_tab_active, (d, active, fx), ()),
    ensures
        active ==> final(d).ui.page.special_tab && !final(d).panels.drawer_open && final(d).backup
            == old(d).backup && final(d).confirm == old(d).confirm,
        !active ==> !final(d).ui.page.special_tab && !final(d).ui.page.open
            && final(d).backup.operation is None && final(d).panels == old(d).panels,
        !active && old(d).backup.operation is Some ==> final(d).confirm is None
            && final(d).backup.passphrase@.len() == 0,
        final(d).tabs == old(d).tabs && final(d).theme == old(d).theme && final(d).switches
            == old(d).switches,
{
}

/// Dragging over a field moves the caret of that field alone, and keeps every text.
pub proof fn drag_selects_in_its_own_field(d: &mut Display, at: Option<usize>, fx: &mut Fx, r: bool)
    requires
        call_ensures(Display::settings_text_drag_to, (d, at, fx), r),
        old(d).wf(),
        at is Some,
    ensures
        r <==> old(d).ui.page.text_drag is Some,
        !r ==> *final(d) == *old(d),
        final(d).ui.font.query.text == old(d).ui.font.query.text,
        final(d).keymap.query.text == old(d).keymap.query.text,
        !(old(d).ui.page.text_drag matches Some(t) && t is Font) ==> final(d).ui == old(d).ui,
        !(old(d).ui.page.text_drag matches Some(t) && t is Keymap) ==> final(d).keymap
            == old(d).keymap,
        !(old(d).ui.page.text_drag matches Some(t) && t is Proxy) ==> final(d).proxy
            == old(d).proxy,
        !(old(d).ui.page.text_drag matches Some(t) && t is Provider) ==> final(d).providers
            == old(d).providers,
        old(d).ui.page.text_drag == Some(TextDrag::Keymap) && at->0 <= old(d).keymap.query.text@.len() ==> final(d).keymap.query.caret == at->0,
        old(d).ui.page.text_drag == Some(TextDrag::Font) && at->0 <= old(d).ui.font.query.text@.len() ==> final(d).ui.font.query.caret == at->0,
        final(d).tabs == old(d).tabs && final(d).theme == old(d).theme,
{
}

/// A protocol that is picked shows what is stored for it, and tells where it could not be
/// saved; a field with the keyboard is left first.
pub proof fn picked_protocol_is_shown(
    d: &mut Display,
    known: bool,
    saved: Result<(), String>,
    stored: StoredBackup,
    fx: &mut Fx,
    r: Option<BackupCommit>,
)
    requires
        call_ensures(Display::set_backup_protocol_option, (d, known, saved, stored, fx), r),
    ensures
        !known ==> *final(d) == *old(d) && r is None,
        known && old(d).backup.focus is None ==> final(d).backup.target == stored.target
            && final(d).backup.secret_set == stored.secret_set && final(d).ui.page.dropdown is None
            && r is None,
        known && old(d).backup.focus is None ==> (saved matches Err(e) ==> final(d).backup.status
            == Some((e, true))),
        known && old(d).backup.focus is None && saved is Ok ==> final(d).backup.status
            == old(d).backup.status,
        known && old(d).backup.focus is Some ==> r is Some && final(d).backup.focus is None
            && final(d).backup.target == old(d).backup.target,
        final(d).tabs == old(d).tabs && final(d).sync == old(d).sync,
{
}

} // verus!
