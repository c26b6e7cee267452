//! Choosing the theme, by hand or after the operating system's appearance.
use crate::color::Rgb;
use crate::fx::Fx;
use vstd::prelude::*;

verus! {

/// The appearance that the operating system asks for.
#[derive(Clone, Copy, Debug, PartialEq, Eq, Structural)]
pub enum SystemTheme {
    Light,
    Dark,
}

/// One concrete theme and the terminal background that it brings.
#[derive(Clone, Copy, Debug, PartialEq, Eq, Structural)]
pub struct NebulaTheme {
    pub id: u32,
    pub term_bg: Rgb,
}

/// A theme that the user picked, and its forms for a light and for a dark system.
#[derive(Clone, Copy, Debug, PartialEq, Eq, Structural)]
pub struct ThemePreference {
    pub chosen: NebulaTheme,
    pub light: NebulaTheme,
    pub dark: NebulaTheme,
}

/// The theme in use and where it comes from. `window_theme_request` holds the window
/// decoration to ask for, `color_change` the terminal backgrounds before and after a
/// change of theme, and `publish` tells that the theme has to be made known to shells.
#[derive(Clone, Copy, Debug)]
pub struct ThemeState {
    pub theme: NebulaTheme,
    pub preference: ThemePreference,
    pub follow_system: bool,
    pub system_theme: Option<SystemTheme>,
    pub window_override: Option<SystemTheme>,
    pub background: Option<Rgb>,
    pub window_theme_request: Option<Option<SystemTheme>>,
    pub color_change: Option<(Rgb, Rgb)>,
    pub publish: bool,
}

impl ThemePreference {
    pub open spec fn for_system(self, light: bool) -> NebulaTheme {
        if light {
            self.light
        } else {
            self.dark
        }
    }

    /// The form of the theme for a light or a dark system.
    pub fn for_system_appearance(&self, light: bool) -> (t: NebulaTheme)
        ensures
            t == self.for_system(light),
    {
        if light {
            self.light
        } else {
            self.dark
        }
    }

    /// The theme to use: the form for the system where it is followed and known, else
    /// the one that was picked.
    pub open spec fn resolved(self, follow: bool, system: Option<SystemTheme>) -> NebulaTheme {
        match system {
            Some(s) if follow => self.for_system(s is Light),
            _ => self.chosen,
        }
    }

    pub fn resolve(&self, follow: bool, system: Option<SystemTheme>) -> (t: NebulaTheme)
        ensures
            t == self.resolved(follow, system),
    {
        match system {
            Some(s) => if follow {
                self.for_system_appearance(
                    match s {
                        SystemTheme::Light => true,
                        SystemTheme::Dark => false,
                    },
                )
            } else {
                self.chosen
            },
            None => self.chosen,
        }
    }
}

/// The system's appearance: what the event loop reports, else what the window has.
pub fn system_theme_snapshot(event_loop: Option<SystemTheme>, window: Option<SystemTheme>) -> (r:
    Option<SystemTheme>)
    ensures
        r == (if event_loop is Some {
            event_loop
        } else {
            window
        }),
{
    match event_loop {
        Some(t) => Some(t),
        None => window,
    }
}

impl ThemeState {
    /// The state with `theme` in use. A theme brings its terminal background, whatever
    /// was set before.
    pub open spec fn applied(self, theme: NebulaTheme) -> ThemeState {
        ThemeState {
            theme,
            background: Some(theme.term_bg),
            color_change: if self.theme != theme {
                Some((self.theme.term_bg, theme.term_bg))
            } else {
                self.color_change
            },
            publish: true,
            ..self
        }
    }
}

impl ThemeState {
    fn apply(self, theme: NebulaTheme) -> (t: ThemeState)
        ensures
            t == self.applied(theme),
    {
        ThemeState {
            theme,
            background: Some(theme.term_bg),
            color_change: if self.theme != theme {
                Some((self.theme.term_bg, theme.term_bg))
            } else {
                self.color_change
            },
            publish: true,
            ..self
        }
    }
}

/// What a change of theme asks for: where the theme differs from the one before, the
/// terminal colors are stale.
pub open spec fn theme_fx(fx: Fx, differs: bool) -> Fx {
    if differs {
        fx.colors_stale()
    } else {
        fx.marked()
    }
}

impl ThemeState {
    pub(crate) fn apply_nebula_theme(&mut self, theme: NebulaTheme, fx: &mut Fx)
        ensures
            *final(self) == old(self).applied(theme),
            *final(fx) == theme_fx(*old(fx), old(self).theme != theme),
    {
        let differs: bool = self.theme != theme;
        *self = self.apply(theme);
        if differs {
            fx.stale_colors();
        } else {
            fx.mark();
        }
    }

    /// The state after a theme was picked by hand.
    pub open spec fn picked(self, preference: ThemePreference) -> ThemeState {
        ThemeState {
            preference,
            follow_system: false,
            window_theme_request: Some(self.window_override),
            ..self
        }.applied(preference.chosen)
    }

    /// Picks a theme by hand, which ends automatic mode.
    pub fn select_nebula_theme(&mut self, preference: ThemePreference, fx: &mut Fx)
        ensures
            *final(self) == old(self).picked(preference),
            *final(fx) == theme_fx(*old(fx), old(self).theme != preference.chosen).saved(),
    {
        *self = ThemeState {
            preference,
            follow_system: false,
            window_theme_request: Some(self.window_override),
            ..*self
        };
        self.apply_nebula_theme(preference.chosen, fx);
        fx.save();
    }

    /// The state with automatic mode switched, before the theme follows. `window` is the
    /// theme that the window reports once the system owns its decoration.
    pub open spec fn following(self, follow: bool, window: Option<SystemTheme>) -> ThemeState {
        ThemeState {
            follow_system: follow,
            system_theme: if follow && self.system_theme is None {
                window
            } else {
                self.system_theme
            },
            window_theme_request: Some(
                if follow {
                    None
                } else {
                    self.window_override
                },
            ),
            ..self
        }
    }

    pub(crate) fn follow(&mut self, follow: bool, window: Option<SystemTheme>)
        ensures
            *final(self) == old(self).following(follow, window),
    {
        *self = ThemeState {
            follow_system: follow,
            system_theme: if follow {
                system_theme_snapshot(self.system_theme, window)
            } else {
                self.system_theme
            },
            window_theme_request: Some(
                if follow {
                    None
                } else {
                    self.window_override
                },
            ),
            ..*self
        };
    }

    /// The theme that the mode and the preference ask for.
    pub open spec fn wanted(self) -> NebulaTheme {
        self.preference.resolved(self.follow_system, self.system_theme)
    }

    /// Switches automatic mode.
    pub fn toggle_system_theme_following(&mut self, window: Option<SystemTheme>, fx: &mut Fx)
        ensures
            ({
                let next = old(self).following(!old(self).follow_system, window);
                &&& *final(self) == next.applied(next.wanted())
                &&& *final(fx) == theme_fx(*old(fx), next.theme != next.wanted()).saved()
            }),
    {
        let follow: bool = !self.follow_system;
        self.follow(follow, window);
        let theme: NebulaTheme = self.preference.resolve(self.follow_system, self.system_theme);
        self.apply_nebula_theme(theme, fx);
        fx.save();
    }

    /// The state after the system's appearance became `system`. It is remembered in any
    /// mode and used in automatic mode.
    pub open spec fn synced(self, system: SystemTheme) -> ThemeState {
        let seen = ThemeState { system_theme: Some(system), ..self };
        if self.system_theme == Some(system) {
            self
        } else if self.follow_system {
            seen.applied(seen.wanted())
        } else {
            seen
        }
    }

    /// What that asks for.
    pub open spec fn synced_fx(self, system: SystemTheme, fx: Fx) -> Fx {
        let seen = ThemeState { system_theme: Some(system), ..self };
        if self.system_theme != Some(system) && self.follow_system {
            theme_fx(fx, self.theme != seen.wanted())
        } else {
            fx
        }
    }

    pub fn system_theme_changed(&mut self, system_theme: SystemTheme, fx: &mut Fx)
        ensures
            *final(self) == old(self).synced(system_theme),
            *final(fx) == old(self).synced_fx(system_theme, *old(fx)),
    {
        self.sync_system_theme(Some(system_theme), fx);
    }

    /// Takes over the system's appearance where it is known.
    pub fn sync_system_theme(&mut self, system_theme: Option<SystemTheme>, fx: &mut Fx)
        ensures
            system_theme is None ==> *final(self) == *old(self) && *final(fx) == *old(fx),
            system_theme matches Some(s) ==> *final(self) == old(self).synced(s) && *final(fx)
                == old(self).synced_fx(s, *old(fx)),
    {
        let system: SystemTheme = match system_theme {
            Some(s) => s,
            None => {
                return;
            },
        };
        if let Some(known) = self.system_theme {
            if known == system {
                return;
            }
        }
        self.system_theme = Some(system);
        if self.follow_system {
            let theme: NebulaTheme = self.preference.resolve(true, Some(system));
            self.apply_nebula_theme(theme, fx);
        }
    }

    /// Takes over the configured window decoration; automatic mode keeps the system in
    /// charge of it.
    pub fn update_window_theme_override(&mut self, theme: Option<SystemTheme>)
        ensures
            *final(self) == (ThemeState {
                window_override: theme,
                window_theme_request: Some(
                    if old(self).follow_system {
                        None
                    } else {
                        theme
                    },
                ),
                ..*old(self)
            }),
    {
        self.window_override = theme;
        self.window_theme_request = Some(
            if self.follow_system {
                None
            } else {
                theme
            },
        );
    }

    /// The terminal background that the preview shows: a custom one, else the theme's.
    pub fn preview_terminal_bg(&self) -> (c: Rgb)
        ensures
            c == (match self.background {
                Some(c) => c,
                None => self.theme.term_bg,
            }),
    {
        match self.background {
            Some(c) => c,
            None => self.theme.term_bg,
        }
    }
}

/// In manual mode a change of the system's appearance changes neither the theme nor
/// anything that is drawn.
pub proof fn manual_mode_ignores_system(t: ThemeState, system: SystemTheme, fx: Fx)
    requires
        !t.follow_system,
    ensures
        t.synced(system).theme == t.theme,
        t.synced(system).background == t.background,
        t.synced_fx(system, fx) == fx,
{
}

/// In automatic mode the theme always is the form for the known appearance.
pub proof fn automatic_mode_follows_system(t: ThemeState, system: SystemTheme)
    requires
        t.follow_system,
        t.theme == t.wanted(),
    ensures
        t.synced(system).theme == t.synced(system).wanted(),
        t.synced(system).theme == t.preference.for_system(system is Light),
{
}

/// A picked theme survives automatic mode: leaving it brings the theme back.
pub proof fn leaving_automatic_mode_restores_choice(p: ThemePreference, system: Option<SystemTheme>)
    ensures
        p.resolved(false, system) == p.chosen,
{
}

/// The system decides only where it is followed and known: a light system shows the light
/// theme and a dark one the dark theme. Otherwise the chosen theme is shown.
pub proof fn shown_theme_is_chosen_or_follows(p: ThemePreference, system: Option<SystemTheme>)
    ensures
        p.resolved(true, Some(SystemTheme::Light)) == p.light,
        p.resolved(true, Some(SystemTheme::Dark)) == p.dark,
        p.resolved(true, None) == p.chosen,
        p.resolved(false, system) == p.chosen,
{
}

/// A theme that is applied is shown with its own background and told to all; a change of
/// colors runs from the old one to the new, and the same theme starts none. The choice and
/// what the system says stay.
pub proof fn applied_theme_is_shown(t: ThemeState, theme: NebulaTheme)
    ensures
        ({
            let now = t.applied(theme);
            &&& now.theme == theme
            &&& now.background == Some(theme.term_bg)
            &&& now.publish
            &&& t.theme != theme ==> now.color_change == Some((t.theme.term_bg, theme.term_bg))
            &&& t.theme == theme ==> now.color_change == t.color_change
            &&& now.preference == t.preference && now.follow_system == t.follow_system
                && now.system_theme == t.system_theme && now.window_override == t.window_override
                && now.window_theme_request == t.window_theme_request
        }),
{
}

/// A theme that was picked is shown at once, and ends following the system.
pub proof fn picked_theme_is_shown(t: ThemeState, p: ThemePreference)
    ensures
        t.picked(p).theme == p.chosen,
        t.picked(p).theme == t.picked(p).wanted(),
        !t.picked(p).follow_system,
        t.picked(p).preference == p,
        t.picked(p).system_theme == t.system_theme,
        t.picked(p).window_theme_request == Some(t.window_override),
{
}

/// Following the system asks the window for its own theme back; what is known of the system
/// stays, and the window tells where nothing is. Not following asks for the override.
pub proof fn following_asks_the_window(t: ThemeState, follow: bool, window: Option<SystemTheme>)
    ensures
        t.following(follow, window).follow_system == follow,
        follow ==> t.following(follow, window).window_theme_request == Some(None::<SystemTheme>),
        !follow ==> t.following(follow, window).window_theme_request == Some(t.window_override)
            && t.following(follow, window).system_theme == t.system_theme,
        t.system_theme is Some ==> t.following(follow, window).system_theme == t.system_theme,
        follow && t.system_theme is None ==> t.following(follow, window).system_theme == window,
        t.following(follow, window).theme == t.theme && t.following(follow, window).preference
            == t.preference,
{
}

/// What the system says is remembered in either mode, and heard once: the same again changes
/// nothing. The choice of themes stays.
pub proof fn system_theme_is_remembered(t: ThemeState, system: SystemTheme, fx: Fx)
    ensures
        t.synced(system).system_theme == Some(system),
        t.synced(system).synced(system) == t.synced(system),
        t.synced(system).synced_fx(system, fx) == fx,
        t.synced(system).preference == t.preference,
        t.synced(system).follow_system == t.follow_system,
        t.follow_system && t.system_theme != Some(system) ==> t.synced(system).theme
            == t.preference.resolved(true, Some(system)) && t.synced(system).publish
            && t.synced_fx(system, fx).update.dirty,
{
}

/// Switching the system on or off turns following over and shows the theme that follows;
/// doing it twice follows as before.
pub proof fn following_is_turned_over(
    t: &mut ThemeState,
    window: Option<SystemTheme>,
    fx: &mut Fx,
    u: &mut ThemeState,
    window2: Option<SystemTheme>,
    fx2: &mut Fx,
)
    requires
        call_ensures(ThemeState::toggle_system_theme_following, (t, window, fx), ()),
        call_ensures(ThemeState::toggle_system_theme_following, (u, window2, fx2), ()),
        *u == *final(t),
    ensures
        final(t).follow_system != old(t).follow_system,
        final(u).follow_system == old(t).follow_system,
        final(t).theme == final(t).preference.resolved(final(t).follow_system, final(t).system_theme),
        final(t).background == Some(final(t).theme.term_bg),
        final(t).preference == old(t).preference,
        final(fx).persist,
        final(t).theme != old(t).theme ==> final(fx).update.terminal_colors_dirty,
{
}

/// A picked theme is shown and written down, and colors are stale only where it differs.
pub proof fn selected_theme_is_shown(t: &mut ThemeState, p: ThemePreference, fx: &mut Fx)
    requires
        call_ensures(ThemeState::select_nebula_theme, (t, p, fx), ()),
    ensures
        final(t).theme == p.chosen && final(t).preference == p && !final(t).follow_system,
        final(t).background == Some(p.chosen.term_bg),
        final(fx).persist,
        p.chosen != old(t).theme ==> final(fx).update.terminal_colors_dirty,
        p.chosen == old(t).theme ==> final(fx).update.terminal_colors_dirty
            == old(fx).update.terminal_colors_dirty,
{
}

/// The event loop tells the theme of the system before the window does; an override of the
/// window counts while the system is not followed.
pub proof fn theme_of_the_system_is_asked_in_order(
    event_loop: Option<SystemTheme>,
    window: Option<SystemTheme>,
    r: Option<SystemTheme>,
    t: &mut ThemeState,
    over: Option<SystemTheme>,
)
    requires
        call_ensures(system_theme_snapshot, (event_loop, window), r),
        call_ensures(ThemeState::update_window_theme_override, (t, over), ()),
    ensures
        event_loop is Some ==> r == event_loop,
        event_loop is None ==> r == window,
        final(t).window_override == over,
        old(t).follow_system ==> final(t).window_theme_request == Some(None::<SystemTheme>),
        !old(t).follow_system ==> final(t).window_theme_request == Some(over),
        final(t).theme == old(t).theme && final(t).follow_system == old(t).follow_system
            && final(t).system_theme == old(t).system_theme,
{
}

/// The sample shows the background that is set, and that of the theme where none is.
pub proof fn sample_shows_the_background(t: ThemeState, c: Rgb)
    requires
        call_ensures(ThemeState::preview_terminal_bg, (&t,), c),
    ensures
        t.background is Some ==> t.background == Some(c),
        t.background is None ==> c == t.theme.term_bg,
{
}

} // verus!
