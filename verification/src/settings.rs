//! The settings that are kept between runs, and how each part of the window takes them
//! over.
use crate::color::{Px, Rgb};
use crate::config::clone_texts;
use crate::fields::TextField;
use crate::fonts::FontState;
use crate::fx::{Fx, Requests};
use crate::hosts::{remove_host, without, HostState};
use crate::keymap::{Keybind, KeymapState};
use crate::look::LookState;
use crate::panels::PanelState;
use crate::prefs::{Choices, Switches};
use crate::proxy::{choice_for, choice_of, ManualProxyProtocol, ProxyMode, ProxyState};
use crate::shells::ShellState;
use crate::text::{chars_of, same_text, texts};
use crate::theme::{theme_fx, SystemTheme, ThemePreference, ThemeState};
use vstd::prelude::*;

verus! {

/// What is kept of the theme.
#[derive(Clone, Copy, Debug, PartialEq, Eq, Structural)]
pub struct ThemeSettings {
    pub preference: ThemePreference,
    pub follow_system: bool,
    pub background: Option<Rgb>,
}

/// What is kept of the default shell.
#[derive(Debug)]
pub struct ShellSettings {
    pub family: u8,
    pub shell_id: Option<String>,
    pub startup_directory: Option<String>,
}

/// What is kept of transparency and the background image.
#[derive(Debug)]
pub struct LookSettings {
    pub opacity: Px,
    pub image: Option<String>,
    pub image_opacity: Px,
}

/// What is kept of the hosts.
#[derive(Debug)]
pub struct HostSettings {
    pub pinned: Vec<String>,
    pub saved: Vec<String>,
    pub hidden: Vec<String>,
}

/// What is kept of the panels.
#[derive(Clone, Copy, Debug, PartialEq, Eq, Structural)]
pub struct PanelSettings {
    pub sidebar_w: Px,
    pub drawer_w: Px,
    pub hosts_band: Px,
}

/// What is kept of the key bindings.
#[derive(Debug)]
pub struct KeySettings {
    pub keybinds: Vec<Keybind>,
    pub quick_hotkey: String,
}

/// What is kept of the proxy.
#[derive(Debug)]
pub struct ProxySettings {
    pub mode: ProxyMode,
    pub url: String,
    pub no_proxy: String,
}

/// Everything that is kept between runs. The language is the code of its choice, and the
/// font size is in pixels at a scale of one.
#[derive(Debug)]
pub struct NebulaRuntimeSettings {
    pub language: u8,
    pub switches: Switches,
    pub choices: Choices,
    pub theme: ThemeSettings,
    pub shell: ShellSettings,
    pub font_family: String,
    pub font_size: Option<Px>,
    pub look: LookSettings,
    pub hosts: HostSettings,
    pub panels: PanelSettings,
    pub keys: KeySettings,
    pub proxy: ProxySettings,
}

/// Two optional texts with the same characters, or both missing.
pub open spec fn same_optional(a: Option<String>, b: Option<String>) -> bool {
    match (a, b) {
        (Some(x), Some(y)) => x@ == y@,
        (None, None) => true,
        _ => false,
    }
}

fn optional_texts_agree(a: &Option<String>, b: &Option<String>) -> (r: bool)
    ensures
        r == same_optional(*a, *b),
{
    match (a, b) {
        (Some(x), Some(y)) => same_text(x.as_str(), y.as_str()),
        (None, None) => true,
        _ => false,
    }
}

/// A copy of an optional text.
pub fn clone_optional(s: &Option<String>) -> (r: Option<String>)
    ensures
        r == *s,
{
    match s {
        Some(t) => Some(t.clone()),
        None => None,
    }
}

/// A copy of some bindings.
pub fn clone_binds(v: &Vec<Keybind>) -> (r: Vec<Keybind>)
    ensures
        r@ == v@,
{
    let mut r: Vec<Keybind> = Vec::new();
    let mut i: usize = 0;
    while i < v.len()
        invariant
            i <= v@.len(),
            r@ == v@.take(i as int),
        decreases v@.len() - i,
    {
        r.push(Keybind { combo: v[i].combo.clone(), action: v[i].action.clone() });
        proof {
            assert(r@ =~= v@.take(i + 1));
        }
        i += 1;
    }
    proof {
        assert(v@.take(i as int) =~= v@);
    }
    r
}

impl ThemeState {
    /// What is kept of this state.
    pub fn settings(&self) -> (s: ThemeSettings)
        ensures
            s == (ThemeSettings {
                preference: self.preference,
                follow_system: self.follow_system,
                background: self.background,
            }),
    {
        ThemeSettings {
            preference: self.preference,
            follow_system: self.follow_system,
            background: self.background,
        }
    }

    /// This state with the kept preference and mode, before the theme follows.
    pub open spec fn preferring(self, s: ThemeSettings, window: Option<SystemTheme>) -> ThemeState {
        let preferring = ThemeState { preference: s.preference, ..self };
        if self.follow_system != s.follow_system {
            preferring.following(s.follow_system, window)
        } else {
            preferring
        }
    }

    /// This state after the kept settings were taken over. An automatic theme brings its
    /// own background, whatever was kept.
    pub open spec fn reloaded(self, s: ThemeSettings, window: Option<SystemTheme>) -> ThemeState {
        let next = self.preferring(s, window);
        let themed = if next.wanted() != self.theme {
            next.applied(next.wanted())
        } else {
            next
        };
        ThemeState {
            background: if s.follow_system {
                Some(next.wanted().term_bg)
            } else {
                s.background
            },
            ..themed
        }
    }

    /// What that asks for.
    pub open spec fn reload_fx(self, s: ThemeSettings, window: Option<SystemTheme>, fx: Fx) -> Fx {
        if self.preferring(s, window).wanted() != self.theme {
            theme_fx(fx, true)
        } else {
            fx
        }
    }

    /// Takes the kept settings over. `window` is the theme that the window reports once
    /// the system owns its decoration.
    pub fn reload(&mut self, s: ThemeSettings, window: Option<SystemTheme>, fx: &mut Fx)
        ensures
            *final(self) == old(self).reloaded(s, window),
            *final(fx) == old(self).reload_fx(s, window, *old(fx)),
    {
        let changes: bool = self.follow_system != s.follow_system;
        self.preference = s.preference;
        if changes {
            self.follow(s.follow_system, window);
        }
        let wanted = self.preference.resolve(s.follow_system, self.system_theme);
        if wanted != self.theme {
            self.apply_nebula_theme(wanted, fx);
        }
        self.background = if s.follow_system {
            Some(wanted.term_bg)
        } else {
            s.background
        };
    }
}

impl Switches {
    /// These switches after the kept ones were taken over. The look of the cursor and
    /// copying on selection stay as they are in this window.
    pub open spec fn reloaded(self, s: Switches) -> Switches {
        Switches { cursor_blink: self.cursor_blink, copy_on_select: self.copy_on_select, ..s }
    }

    /// What that asks for: the tray follows, and glyphs of the wrong weight go.
    pub open spec fn reload_fx(self, s: Switches, fx: Fx) -> Fx {
        fx.asking(
            Requests {
                set_tray: if self.tray != s.tray {
                    Some(s.tray)
                } else {
                    fx.requests.set_tray
                },
                reset_glyphs: fx.requests.reset_glyphs || self.cjk_bold_regular
                    != s.cjk_bold_regular,
                wide_bold_regular: if self.cjk_bold_regular != s.cjk_bold_regular {
                    Some(s.cjk_bold_regular)
                } else {
                    fx.requests.wide_bold_regular
                },
                ..fx.requests
            },
        )
    }

    pub fn reload(&mut self, s: Switches, fx: &mut Fx)
        ensures
            *final(self) == old(self).reloaded(s),
            *final(fx) == old(self).reload_fx(s, *old(fx)),
    {
        let tray: Option<bool> = if self.tray != s.tray {
            Some(s.tray)
        } else {
            fx.requests.set_tray
        };
        let glyphs: bool = fx.requests.reset_glyphs || self.cjk_bold_regular != s.cjk_bold_regular;
        let wide: Option<bool> = if self.cjk_bold_regular != s.cjk_bold_regular {
            Some(s.cjk_bold_regular)
        } else {
            fx.requests.wide_bold_regular
        };
        fx.ask(
            Requests {
                set_tray: tray,
                reset_glyphs: glyphs,
                wide_bold_regular: wide,
                ..fx.requests
            },
        );
        *self = Switches {
            cursor_blink: self.cursor_blink,
            copy_on_select: self.copy_on_select,
            ..s
        };
    }
}

impl Choices {
    /// These choices after the kept ones were taken over. The shape of the cursor stays.
    pub open spec fn reloaded(self, s: Choices) -> Choices {
        Choices { cursor_shape: self.cursor_shape, ..s }
    }

    pub fn reload(&mut self, s: Choices)
        ensures
            *final(self) == old(self).reloaded(s),
    {
        *self = Choices { cursor_shape: self.cursor_shape, ..s };
    }
}

impl ShellState {
    pub fn settings(&self) -> (s: ShellSettings)
        ensures
            s == (ShellSettings {
                family: self.family,
                shell_id: self.shell_id,
                startup_directory: self.startup_directory,
            }),
    {
        ShellSettings {
            family: self.family,
            shell_id: clone_optional(&self.shell_id),
            startup_directory: clone_optional(&self.startup_directory),
        }
    }

    pub fn reload(&mut self, s: ShellSettings)
        ensures
            *final(self) == (ShellState {
                family: s.family,
                shell_id: s.shell_id,
                startup_directory: s.startup_directory,
                ..*old(self)
            }),
    {
        self.family = s.family;
        self.shell_id = s.shell_id;
        self.startup_directory = s.startup_directory;
    }
}

impl FontState {
    /// `now` is this state with the kept family. Where it changed and `installed` lists
    /// the families that come with the program, they are listed anew, the required one
    /// first.
    pub open spec fn reloaded(
        self,
        now: FontState,
        family: String,
        installed: Option<Vec<String>>,
        required: Seq<char>,
    ) -> bool {
        &&& now == (FontState { family, families: now.families, ..self })
        &&& match installed {
            Some(list) if family@ != self.family@ => texts(now.families@) == seq![required]
                + without(texts(list@), required),
            _ => now.families == self.families,
        }
    }

    /// What that asks for.
    pub open spec fn reload_fx(self, now: FontState, fx: Fx) -> Fx {
        if now.family@ != self.family@ {
            fx.font_queued(now.in_use())
        } else {
            fx
        }
    }

    pub fn reload(
        &mut self,
        family: String,
        installed: Option<Vec<String>>,
        required: &str,
        fx: &mut Fx,
    )
        ensures
            old(self).reloaded(*final(self), family, installed, required@),
            *final(fx) == old(self).reload_fx(*final(self), *old(fx)),
    {
        let changed: bool = !same_text(self.family.as_str(), family.as_str());
        self.family = family;
        if changed {
            if let Some(list) = installed {
                let mut rest = list;
                let ghost all = texts(rest@);
                remove_host(&mut rest, required);
                let mut families: Vec<String> = Vec::new();
                families.push(required.to_owned());
                families.append(&mut rest);
                proof {
                    assert(texts(families@) =~= seq![required@] + without(all, required@));
                }
                self.families = families;
            }
            let font = self.effective_font();
            fx.queue_font(font);
        }
    }
}

impl LookState {
    pub fn settings(&self) -> (s: LookSettings)
        ensures
            s == (LookSettings {
                opacity: self.opacity,
                image: self.image,
                image_opacity: self.image_opacity,
            }),
    {
        LookSettings {
            opacity: self.opacity,
            image: clone_optional(&self.image),
            image_opacity: self.image_opacity,
        }
    }

    /// What taking the kept look over asks for: another image is read anew.
    pub open spec fn reload_fx(self, s: LookSettings, fx: Fx) -> Fx {
        fx.asking(
            Requests {
                invalidate_image: fx.requests.invalidate_image || !same_optional(
                    self.image,
                    s.image,
                ),
                refresh_transparency: true,
                ..fx.requests
            },
        )
    }

    pub fn reload(&mut self, s: LookSettings, fx: &mut Fx)
        ensures
            *final(self) == (LookState {
                opacity: s.opacity,
                image: s.image,
                image_opacity: s.image_opacity,
                ..*old(self)
            }),
            *final(fx) == old(self).reload_fx(s, *old(fx)),
    {
        let changed: bool = !optional_texts_agree(&self.image, &s.image);
        let invalid: bool = fx.requests.invalidate_image || changed;
        fx.ask(Requests { invalidate_image: invalid, refresh_transparency: true, ..fx.requests });
        self.opacity = s.opacity;
        self.image = s.image;
        self.image_opacity = s.image_opacity;
    }
}

impl HostState {
    pub fn settings(&self) -> (s: HostSettings)
        ensures
            s.pinned@ == self.pinned@,
            s.saved@ == self.saved@,
            s.hidden@ == self.hidden@,
    {
        HostSettings {
            pinned: clone_texts(&self.pinned),
            saved: clone_texts(&self.saved),
            hidden: clone_texts(&self.hidden),
        }
    }

    /// Takes the kept hosts over: another window may have saved or pinned one, which the
    /// next write of this window must not lose.
    pub fn reload(&mut self, s: HostSettings, fx: &mut Fx)
        ensures
            *final(self) == (HostState {
                pinned: s.pinned,
                saved: s.saved,
                hidden: s.hidden,
                ..*old(self)
            }),
            *final(fx) == old(fx).merging(),
    {
        self.pinned = s.pinned;
        self.saved = s.saved;
        self.hidden = s.hidden;
        fx.ask_merge();
    }
}

impl PanelState {
    pub fn settings(&self) -> (s: PanelSettings)
        ensures
            s == (PanelSettings {
                sidebar_w: self.sidebar_w,
                drawer_w: self.drawer_w,
                hosts_band: self.hosts_band,
            }),
    {
        PanelSettings {
            sidebar_w: self.sidebar_w,
            drawer_w: self.drawer_w,
            hosts_band: self.hosts_band,
        }
    }

    /// Takes the kept widths over; `resized` tells that one differs by enough to lay the
    /// grid out again.
    pub fn reload(&mut self, s: PanelSettings, resized: bool, fx: &mut Fx)
        ensures
            *final(self) == (PanelState {
                sidebar_w: s.sidebar_w,
                drawer_w: s.drawer_w,
                hosts_band: s.hosts_band,
                ..*old(self)
            }),
            *final(fx) == (if resized {
                old(fx).reflowed()
            } else {
                *old(fx)
            }),
    {
        self.sidebar_w = s.sidebar_w;
        self.drawer_w = s.drawer_w;
        self.hosts_band = s.hosts_band;
        if resized {
            fx.reflow();
        }
    }
}

impl KeymapState {
    pub fn settings(&self) -> (s: KeySettings)
        ensures
            s.keybinds@ == self.keybinds@,
            s.quick_hotkey == self.quick_hotkey,
    {
        KeySettings {
            keybinds: clone_binds(&self.keybinds),
            quick_hotkey: self.quick_hotkey.clone(),
        }
    }

    /// `now` is this state with the kept bindings. A key that is being waited for is
    /// dropped, so that it cannot overwrite them.
    pub open spec fn reloaded(self, now: KeymapState, s: KeySettings) -> bool {
        let base = KeymapState { keybinds: s.keybinds, rebuild: true, capture: None, ..self };
        if self.quick_hotkey@ == s.quick_hotkey@ {
            now == base
        } else {
            &&& now == (KeymapState {
                quick_hotkey: s.quick_hotkey,
                quick_request: now.quick_request,
                quick_error: None,
                ..base
            })
            &&& now.quick_request matches Some(r) && r@ == s.quick_hotkey@
        }
    }

    pub fn reload(&mut self, s: KeySettings)
        ensures
            old(self).reloaded(*final(self), s),
    {
        self.keybinds = s.keybinds;
        self.rebuild = true;
        self.capture = None;
        if !same_text(self.quick_hotkey.as_str(), s.quick_hotkey.as_str()) {
            self.quick_request = Some(s.quick_hotkey.clone());
            self.quick_hotkey = s.quick_hotkey;
            self.quick_error = None;
        }
    }
}

/// What the address of a proxy says: its protocol, and whether it names a host to jump
/// over or a command. `shown` is the text that the focused field stands for.
#[derive(Debug)]
pub struct ProxyReading {
    pub protocol: ManualProxyProtocol,
    pub is_jump: bool,
    pub is_command: bool,
    pub shown: String,
}

/// The smaller of two numbers.
pub open spec fn at_most(n: usize, max: nat) -> int {
    if n <= max {
        n as int
    } else {
        max as int
    }
}

impl ProxyState {
    pub fn settings(&self) -> (s: ProxySettings)
        ensures
            s == (ProxySettings { mode: self.mode, url: self.url, no_proxy: self.no_proxy }),
    {
        ProxySettings {
            mode: self.mode,
            url: self.url.clone(),
            no_proxy: self.no_proxy.clone(),
        }
    }

    /// Whether the kept proxy is another one.
    pub open spec fn differs_from(self, s: ProxySettings) -> bool {
        self.mode != s.mode || self.url@ != s.url@ || self.no_proxy@ != s.no_proxy@
    }

    /// `now` is this state with the kept proxy: an answer to a test of another one is
    /// dropped, and a focused field shows the new value.
    pub open spec fn reloaded(self, now: ProxyState, s: ProxySettings, r: ProxyReading) -> bool {
        let base = if self.differs_from(s) {
            self.untested()
        } else {
            self
        };
        &&& now == (ProxyState {
            mode: s.mode,
            url: s.url,
            no_proxy: s.no_proxy,
            protocol: r.protocol,
            choice: choice_of(s.url@, texts(self.found@), r.is_jump, r.is_command),
            fields: now.fields,
            ..base
        })
        &&& match self.focus {
            Some(i) => {
                let was = self.fields@[i as int];
                let f = now.fields@[i as int];
                &&& now.fields@ == self.fields@.update(i as int, f)
                &&& f.text@ == r.shown@
                &&& f.caret == at_most(was.caret, r.shown@.len())
                &&& f.anchor == match was.anchor {
                    Some(a) => Some(at_most(a, r.shown@.len()) as usize),
                    None => None,
                }
            },
            None => now.fields == self.fields,
        }
    }

    /// What that asks for.
    pub open spec fn reload_fx(s: ProxySettings, fx: Fx) -> Fx {
        if s.mode is System {
            fx.asking(Requests { probe_system_proxy: true, ..fx.requests })
        } else {
            fx
        }
    }

    pub fn reload(&mut self, s: ProxySettings, r: ProxyReading, fx: &mut Fx)
        requires
            old(self).wf(),
        ensures
            final(self).wf(),
            old(self).reloaded(*final(self), s, r),
            *final(fx) == ProxyState::reload_fx(s, *old(fx)),
    {
        let differs: bool = self.mode != s.mode || !same_text(self.url.as_str(), s.url.as_str())
            || !same_text(self.no_proxy.as_str(), s.no_proxy.as_str());
        self.choice = choice_for(s.url.as_str(), &self.found, r.is_jump, r.is_command);
        self.protocol = r.protocol;
        self.mode = s.mode;
        self.url = s.url;
        self.no_proxy = s.no_proxy;
        if differs {
            self.test_seq = self.test_seq.wrapping_add(1);
            self.test_request = None;
            self.test_status = crate::proxy::ProxyTestStatus::Idle;
        }
        if let Some(i) = self.focus {
            let text = chars_of(r.shown.as_str());
            let caret: usize = if self.fields[i].caret <= text.len() {
                self.fields[i].caret
            } else {
                text.len()
            };
            let anchor: Option<usize> = match self.fields[i].anchor {
                Some(a) => Some(
                    if a <= text.len() {
                        a
                    } else {
                        text.len()
                    },
                ),
                None => None,
            };
            self.fields.set(i, TextField { text, caret, anchor });
        }
        if s.mode == ProxyMode::System {
            fx.ask(Requests { probe_system_proxy: true, ..fx.requests });
        }
    }
}

/// Taking over what was just kept changes no kept part of the theme, as long as the
/// background of an automatic theme is its own.
pub proof fn kept_theme_is_stable(t: ThemeState, window: Option<SystemTheme>)
    requires
        t.theme == t.wanted(),
        t.follow_system ==> t.background == Some(t.theme.term_bg),
    ensures
        t.reloaded(
            ThemeSettings {
                preference: t.preference,
                follow_system: t.follow_system,
                background: t.background,
            },
            window,
        ) == t,
{
}

/// Taking over what was just kept changes no switch and no choice.
pub proof fn kept_switches_are_stable(s: Switches, c: Choices, fx: Fx)
    ensures
        s.reloaded(s) == s,
        c.reloaded(c) == c,
        s.reload_fx(s, fx) == fx,
{
}

/// Taking over what was just kept leaves a running test of the proxy alone.
pub proof fn kept_proxy_keeps_its_test(p: ProxyState, now: ProxyState, s: ProxySettings, r: ProxyReading)
    requires
        s.mode == p.mode,
        s.url@ == p.url@,
        s.no_proxy@ == p.no_proxy@,
        p.reloaded(now, s, r),
    ensures
        now.test_seq == p.test_seq,
        now.test_status == p.test_status,
        now.url@ == p.url@,
        now.no_proxy@ == p.no_proxy@,
{
}

/// A file that is read again sets the themes and whether the system is followed, and shows
/// the theme that follows from that. Its background counts only where the system is not
/// followed.
pub proof fn reread_theme_is_shown(t: ThemeState, s: ThemeSettings, window: Option<SystemTheme>)
    ensures
        ({
            let now = t.reloaded(s, window);
            &&& now.preference == s.preference
            &&& now.follow_system == s.follow_system
            &&& now.theme == now.wanted()
            &&& !s.follow_system ==> now.background == s.background && now.theme
                == s.preference.chosen
            &&& s.follow_system ==> now.background == Some(now.theme.term_bg)
            &&& t.system_theme is Some ==> now.system_theme == t.system_theme
            &&& s.follow_system == t.follow_system ==> now.window_theme_request
                == t.window_theme_request
        }),
        forall|fx: Fx|
            t.reloaded(s, window).theme == t.theme ==> #[trigger] t.reload_fx(s, window, fx) == fx,
        forall|fx: Fx|
            t.reloaded(s, window).theme != t.theme ==> (#[trigger] t.reload_fx(
                s,
                window,
                fx,
            )).update.terminal_colors_dirty,
{
}

/// Every switch is taken from the file but the blink of the cursor and copying on selection,
/// which only the window sets; so for the choices and the shape of the cursor.
pub proof fn reread_switches_are_taken(a: Switches, s: Switches, c: Choices, d: Choices)
    ensures
        ({
            let now = a.reloaded(s);
            &&& now.suggestions == s.suggestions && now.fetch == s.fetch && now.powerline
                == s.powerline && now.blur == s.blur && now.keep_session == s.keep_session
            &&& now.restore_session == s.restore_session && now.resume_ai == s.resume_ai
                && now.tray == s.tray && now.cover_chrome == s.cover_chrome
            &&& now.cjk_bold_regular == s.cjk_bold_regular && now.panel_resize == s.panel_resize
            &&& now.cursor_blink == a.cursor_blink && now.copy_on_select == a.copy_on_select
        }),
        ({
            let now = c.reloaded(d);
            &&& now.accept == d.accept && now.completion_style == d.completion_style
                && now.image_fit == d.image_fit && now.image_alignment == d.image_alignment
            &&& now.tabs_position == d.tabs_position && now.tab_reveal == d.tab_reveal
                && now.density == d.density && now.new_tab_position == d.new_tab_position
                && now.cell_width_mode == d.cell_width_mode
            &&& now.cursor_shape == c.cursor_shape
        }),
{
}

/// Only a switch that changed asks for its work: the tray for itself, and the weight of wide
/// characters for new glyphs.
pub proof fn changed_switches_ask_for_work(a: Switches, s: Switches, fx: Fx)
    ensures
        ({
            let now = a.reload_fx(s, fx);
            &&& a.tray != s.tray ==> now.requests.set_tray == Some(s.tray)
            &&& a.tray == s.tray ==> now.requests.set_tray == fx.requests.set_tray
            &&& a.cjk_bold_regular != s.cjk_bold_regular ==> now.requests.reset_glyphs
                && now.requests.wide_bold_regular == Some(s.cjk_bold_regular)
            &&& a.cjk_bold_regular == s.cjk_bold_regular ==> now.requests.reset_glyphs
                == fx.requests.reset_glyphs && now.requests.wide_bold_regular
                == fx.requests.wide_bold_regular
            &&& now.update == fx.update && now.redraw == fx.redraw && now.persist == fx.persist
        }),
{
}

/// A new family is queued and lists what is installed behind the required one, all of it;
/// the same family changes nothing.
pub proof fn reread_family_is_queued(
    f: FontState,
    now: FontState,
    family: String,
    installed: Option<Vec<String>>,
    required: Seq<char>,
    fx: Fx,
)
    requires
        f.reloaded(now, family, installed, required),
    ensures
        now.family == family,
        now.size_bits == f.size_bits && now.query == f.query && now.show_all == f.show_all,
        family@ == f.family@ ==> now.families == f.families && f.reload_fx(now, fx) == fx,
        family@ != f.family@ ==> f.reload_fx(now, fx).update.font == Some(now.in_use()),
        family@ != f.family@ && installed is Some ==> {
            let list = texts((installed->0)@);
            &&& texts(now.families@)[0] == required
            &&& texts(now.families@).skip(1) == list.filter(|x: Seq<char>| x != required)
        },
{
    if family@ != f.family@ && installed is Some {
        let list = texts((installed->0)@);
        crate::hosts::other_hosts_stay(list, required);
        assert((seq![required] + without(list, required)).skip(1) =~= without(list, required));
    }
}

/// Bindings from the file are built anew and end waiting for a key; another key for the
/// quick terminal is registered, and the same is not.
pub proof fn reread_keys_are_built(k: KeymapState, now: KeymapState, s: KeySettings)
    requires
        k.reloaded(now, s),
    ensures
        now.keybinds == s.keybinds && now.rebuild && now.capture is None,
        now.quick_hotkey@ == s.quick_hotkey@,
        k.quick_hotkey@ == s.quick_hotkey@ ==> now.quick_request == k.quick_request
            && now.quick_error == k.quick_error,
        k.quick_hotkey@ != s.quick_hotkey@ ==> now.quick_request is Some && (now.quick_request->0)@
            == s.quick_hotkey@ && now.quick_error is None,
        now.query == k.query && now.search_focus == k.search_focus,
{
}

/// A proxy from the file is taken, with the field that is being typed in showing it; the
/// caret stays in the text. A test of other settings is dropped.
pub proof fn reread_proxy_is_taken(p: ProxyState, now: ProxyState, s: ProxySettings, r: ProxyReading)
    requires
        p.wf(),
        p.reloaded(now, s, r),
    ensures
        now.mode == s.mode && now.url == s.url && now.no_proxy == s.no_proxy,
        now.protocol == r.protocol,
        now.focus == p.focus && now.found == p.found && now.scanning == p.scanning,
        p.mode != s.mode || p.url@ != s.url@ || p.no_proxy@ != s.no_proxy@ ==> now.test_seq
            != p.test_seq && now.test_request is None && now.test_status is Idle,
        p.focus matches Some(i) ==> now.fields@[i as int].text@ == r.shown@
            && now.fields@[i as int].caret <= r.shown@.len(),
        forall|j: int| 0 <= j < 3 && p.focus != Some(j as usize) ==> #[trigger] now.fields@[j]
            == p.fields@[j],
{
}

/// A picture that is the same is not loaded again, and nothing is the same as nothing.
pub proof fn same_picture_is_not_loaded(a: String, b: String, l: LookState, s: LookSettings, fx: Fx)
    ensures
        same_optional(None, None),
        !same_optional(Some(a), None) && !same_optional(None, Some(b)),
        same_optional(Some(a), Some(b)) <==> a@ == b@,
        same_optional(l.image, s.image) ==> l.reload_fx(s, fx).requests.invalidate_image
            == fx.requests.invalidate_image,
        !same_optional(l.image, s.image) ==> l.reload_fx(s, fx).requests.invalidate_image,
        l.reload_fx(s, fx).requests.refresh_transparency,
        l.reload_fx(s, fx).update == fx.update,
{
}

/// What a part of the window writes down is what it has.
pub proof fn written_parts_are_what_they_are(
    t: ThemeState,
    a: ThemeSettings,
    s: ShellState,
    b: ShellSettings,
    l: LookState,
    c: LookSettings,
    h: HostState,
    e: HostSettings,
    p: PanelState,
    f: PanelSettings,
    x: ProxyState,
    g: ProxySettings,
)
    requires
        call_ensures(ThemeState::settings, (&t,), a),
        call_ensures(ShellState::settings, (&s,), b),
        call_ensures(LookState::settings, (&l,), c),
        call_ensures(HostState::settings, (&h,), e),
        call_ensures(PanelState::settings, (&p,), f),
        call_ensures(ProxyState::settings, (&x,), g),
    ensures
        a.preference == t.preference && a.follow_system == t.follow_system && a.background
            == t.background,
        b.family == s.family && b.shell_id == s.shell_id && b.startup_directory
            == s.startup_directory,
        c.opacity == l.opacity && c.image == l.image && c.image_opacity == l.image_opacity,
        e.pinned@ == h.pinned@ && e.saved@ == h.saved@ && e.hidden@ == h.hidden@,
        f.sidebar_w == p.sidebar_w && f.drawer_w == p.drawer_w && f.hosts_band == p.hosts_band,
        g.mode == x.mode && g.url == x.url && g.no_proxy == x.no_proxy,
{
}

} // verus!
