//! Transparency and the background image.
use crate::color::Px;
use crate::fx::{Fx, Requests};
use crate::prefs::{Choices, Switches};
use crate::theme::{ThemePreference, ThemeState};
use crate::words::{background_image_path, image_path};
use vstd::prelude::*;

verus! {

/// Fully opaque: the bits of one.
pub const OPAQUE: u32 = 0x3f80_0000;

/// How strong a background image is at first: the bits of 0.38.
pub const IMAGE_OPACITY: u32 = 0x3ec2_8f5c;

/// The transparency that a slider sets.
#[derive(Clone, Copy, Debug, PartialEq, Eq, Structural)]
pub enum SettingsOpacityTarget {
    Terminal,
    BackgroundImage,
}

/// A held slider: what it sets, and where its track begins and how wide it is.
#[derive(Clone, Copy, Debug, PartialEq, Eq, Structural)]
pub struct OpacityDrag {
    pub target: SettingsOpacityTarget,
    pub track_x: Px,
    pub track_width: Px,
}

/// Transparency and the background image.
#[derive(Debug)]
pub struct LookState {
    pub opacity: Px,
    pub image: Option<String>,
    pub image_opacity: Px,
    pub drag: Option<OpacityDrag>,
}

/// The entries of the image lists that a fresh look has.
#[derive(Clone, Copy, Debug, PartialEq, Eq, Structural)]
pub struct LookDefaults {
    pub theme: ThemePreference,
    pub image_fit: u8,
    pub image_alignment: u8,
}

/// The background image as it is drawn: its path, and whether it lies under the window
/// controls too, or only behind the terminal.
#[derive(Debug)]
pub struct ImagePlan {
    pub path: String,
    pub covers_chrome: bool,
}

/// What a new or no background image asks for.
pub open spec fn image_fx(fx: Fx) -> Fx {
    fx.saved().asking(
        Requests { invalidate_image: true, refresh_transparency: true, ..fx.requests },
    ).marked()
}

fn image_changed(fx: &mut Fx)
    ensures
        *final(fx) == image_fx(*old(fx)),
{
    fx.save();
    fx.ask(Requests { invalidate_image: true, refresh_transparency: true, ..fx.requests });
    fx.mark();
}

impl LookState {
    /// Takes a picked image; `None` is a cancelled dialog.
    pub fn pick_background_image(&mut self, path: Option<String>, fx: &mut Fx)
        ensures
            path is Some ==> *final(self) == (LookState { image: path, ..*old(self) })
                && *final(fx) == image_fx(*old(fx)),
            path is None ==> *final(self) == *old(self) && *final(fx) == *old(fx),
    {
        if path.is_some() {
            self.image = path;
            image_changed(fx);
        }
    }

    pub fn clear_background_image(&mut self, fx: &mut Fx)
        ensures
            *final(self) == (LookState { image: None, ..*old(self) }),
            *final(fx) == (if old(self).image is Some {
                image_fx(*old(fx))
            } else {
                *old(fx)
            }),
    {
        if self.image.is_some() {
            self.image = None;
            image_changed(fx);
        }
    }

    /// Decides which image is drawn behind the terminal, if any.
    pub fn draw_background_image(&self, switches: &Switches) -> (r: Option<ImagePlan>)
        ensures
            ({
                let wanted = image_path(
                    match self.image {
                        Some(p) => Some(p@),
                        None => None,
                    },
                );
                match r {
                    Some(plan) => wanted == Some(plan.path@) && plan.covers_chrome
                        == switches.cover_chrome,
                    None => wanted is None,
                }
            }),
    {
        let found = match &self.image {
            Some(p) => background_image_path(Some(p.as_str())),
            None => None,
        };
        match found {
            Some(path) => Some(ImagePlan { path, covers_chrome: switches.cover_chrome }),
            None => None,
        }
    }

    /// This state with the dragged transparency set.
    pub open spec fn slid(self, target: SettingsOpacityTarget, value: Px) -> LookState {
        match target {
            SettingsOpacityTarget::Terminal => LookState { opacity: value, ..self },
            SettingsOpacityTarget::BackgroundImage => LookState { image_opacity: value, ..self },
        }
    }

    /// What a moved slider asks for.
    pub open spec fn slid_fx(fx: Fx) -> Fx {
        fx.asking(Requests { refresh_transparency: true, ..fx.requests }).touched()
    }

    /// Takes hold of a slider and moves it to a first value.
    pub fn begin_settings_opacity_drag(
        &mut self,
        drag: OpacityDrag,
        value: Px,
        differs: bool,
        fx: &mut Fx,
    )
        ensures
            ({
                let held = LookState { drag: Some(drag), ..*old(self) };
                &&& *final(self) == (if differs {
                    held.slid(drag.target, value)
                } else {
                    held
                })
                &&& *final(fx) == (if differs {
                    LookState::slid_fx(*old(fx))
                } else {
                    *old(fx)
                })
            }),
    {
        self.drag = Some(drag);
        self.update_settings_opacity_drag(value, differs, fx);
    }

    /// Follows the pointer with a held slider. It only shows; letting go writes it down.
    pub fn update_settings_opacity_drag(&mut self, value: Px, differs: bool, fx: &mut Fx) -> (r:
        bool)
        ensures
            r == old(self).drag is Some,
            r && differs ==> *final(self) == old(self).slid(old(self).drag->0.target, value)
                && *final(fx) == LookState::slid_fx(*old(fx)),
            !(r && differs) ==> *final(self) == *old(self) && *final(fx) == *old(fx),
    {
        let drag: OpacityDrag = match self.drag {
            Some(d) => d,
            None => {
                return false;
            },
        };
        if !differs {
            return true;
        }
        match drag.target {
            SettingsOpacityTarget::Terminal => {
                self.opacity = value;
            },
            SettingsOpacityTarget::BackgroundImage => {
                self.image_opacity = value;
            },
        }
        fx.ask(Requests { refresh_transparency: true, ..fx.requests });
        fx.touch();
        true
    }

    pub fn finish_settings_opacity_drag(&mut self, fx: &mut Fx) -> (r: bool)
        ensures
            r == old(self).drag is Some,
            *final(self) == (LookState { drag: None, ..*old(self) }),
            *final(fx) == (if r {
                old(fx).saved().marked()
            } else {
                *old(fx)
            }),
    {
        if self.drag.is_none() {
            return false;
        }
        self.drag = None;
        fx.save();
        fx.mark();
        true
    }

    /// Puts the look back: the first theme, nothing transparent, no image.
    pub fn reset_appearance_settings(
        &mut self,
        theme: &mut ThemeState,
        switches: &mut Switches,
        choices: &mut Choices,
        defaults: LookDefaults,
        fx: &mut Fx,
    )
        ensures
            *final(self) == (LookState {
                opacity: (Px { bits: OPAQUE }),
                image: None,
                image_opacity: (Px { bits: IMAGE_OPACITY }),
                ..*old(self)
            }),
            *final(theme) == (ThemeState {
                theme: defaults.theme.chosen,
                preference: defaults.theme,
                follow_system: false,
                window_theme_request: Some(old(theme).window_override),
                background: None,
                publish: true,
                ..*old(theme)
            }),
            *final(switches) == (Switches { cover_chrome: false, ..*old(switches) }),
            *final(choices) == (Choices {
                image_fit: defaults.image_fit,
                image_alignment: defaults.image_alignment,
                ..*old(choices)
            }),
            *final(fx) == old(fx).saved().asking(
                Requests { set_opaque: true, ..old(fx).requests },
            ).marked(),
    {
        theme.preference = defaults.theme;
        theme.follow_system = false;
        theme.window_theme_request = Some(theme.window_override);
        theme.theme = defaults.theme.chosen;
        theme.background = None;
        theme.publish = true;
        self.opacity = Px { bits: OPAQUE };
        self.image = None;
        self.image_opacity = Px { bits: IMAGE_OPACITY };
        switches.cover_chrome = false;
        choices.image_fit = defaults.image_fit;
        choices.image_alignment = defaults.image_alignment;
        fx.save();
        fx.ask(Requests { set_opaque: true, ..fx.requests });
        fx.mark();
    }
}

/// While a slider is held nothing is written down.
pub proof fn sliding_writes_nothing(fx: Fx)
    ensures
        LookState::slid_fx(fx).persist == fx.persist,
{
}

/// A slider sets its own opacity alone.
pub proof fn slider_sets_one_opacity(s: LookState, value: Px)
    ensures
        s.slid(SettingsOpacityTarget::Terminal, value).opacity == value,
        s.slid(SettingsOpacityTarget::Terminal, value).image_opacity == s.image_opacity,
        s.slid(SettingsOpacityTarget::BackgroundImage, value).image_opacity == value,
        s.slid(SettingsOpacityTarget::BackgroundImage, value).opacity == s.opacity,
        forall|t: SettingsOpacityTarget|
            (#[trigger] s.slid(t, value)).image == s.image && s.slid(t, value).drag == s.drag,
{
}

/// Another picture is written down, loaded anew and drawn; moving a slider is drawn at once.
pub proof fn pictures_are_loaded_and_written(fx: Fx)
    ensures
        image_fx(fx).persist && image_fx(fx).update.dirty,
        image_fx(fx).requests == (Requests {
            invalidate_image: true,
            refresh_transparency: true,
            ..fx.requests
        }),
        LookState::slid_fx(fx).redraw && LookState::slid_fx(fx).update.dirty,
        LookState::slid_fx(fx).requests == (Requests {
            refresh_transparency: true,
            ..fx.requests
        }),
{
}

/// A picture that is picked is shown and loaded; a cancelled dialog changes nothing. Without
/// one there is nothing to clear.
pub proof fn picked_picture_is_shown(
    s: &mut LookState,
    path: Option<String>,
    fx: &mut Fx,
    t: &mut LookState,
    fx2: &mut Fx,
)
    requires
        call_ensures(LookState::pick_background_image, (s, path, fx), ()),
        call_ensures(LookState::clear_background_image, (t, fx2), ()),
    ensures
        path is Some ==> final(s).image == path && final(fx).requests.invalidate_image
            && final(fx).persist,
        path is None ==> *final(s) == *old(s) && *final(fx) == *old(fx),
        final(s).opacity == old(s).opacity && final(s).image_opacity == old(s).image_opacity,
        final(t).image is None && final(t).opacity == old(t).opacity && final(t).image_opacity
            == old(t).image_opacity,
        old(t).image is Some ==> final(fx2).persist && final(fx2).requests.invalidate_image,
        old(t).image is None ==> *final(fx2) == *old(fx2),
{
}

/// A slider follows the pointer with its own value, and is written down when it is let go.
pub proof fn slider_follows_the_pointer(
    s: &mut LookState,
    value: Px,
    differs: bool,
    fx: &mut Fx,
    r: bool,
    t: &mut LookState,
    fx2: &mut Fx,
    q: bool,
)
    requires
        call_ensures(LookState::update_settings_opacity_drag, (s, value, differs, fx), r),
        call_ensures(LookState::finish_settings_opacity_drag, (t, fx2), q),
    ensures
        r <==> old(s).drag is Some,
        r && differs && old(s).drag->0.target is Terminal ==> final(s).opacity == value
            && final(s).image_opacity == old(s).image_opacity,
        r && differs && old(s).drag->0.target is BackgroundImage ==> final(s).image_opacity == value
            && final(s).opacity == old(s).opacity,
        !r || !differs ==> *final(s) == *old(s) && *final(fx) == *old(fx),
        final(fx).persist == old(fx).persist,
        final(s).drag == old(s).drag,
        q <==> old(t).drag is Some,
        final(t).drag is None && final(t).opacity == old(t).opacity,
        q ==> final(fx2).persist,
{
}

/// A picture is drawn where one is set, over the whole window where that is switched on.
pub proof fn picture_is_drawn_where_set(s: LookState, switches: Switches, r: Option<ImagePlan>)
    requires
        call_ensures(LookState::draw_background_image, (&s, &switches), r),
    ensures
        s.image is None ==> r is None,
        r matches Some(p) ==> p.covers_chrome == switches.cover_chrome && p.path@.len() > 0,
{
    if s.image is Some {
        crate::words::written_path_is_the_path((s.image->0)@);
    }
}

/// A reset of the look is without picture and without following the system, opaque, and in
/// the default theme and its own background.
pub proof fn reset_look_is_the_default(
    s: &mut LookState,
    theme: &mut ThemeState,
    switches: &mut Switches,
    choices: &mut Choices,
    defaults: LookDefaults,
    fx: &mut Fx,
)
    requires
        call_ensures(
            LookState::reset_appearance_settings,
            (s, theme, switches, choices, defaults, fx),
            (),
        ),
    ensures
        final(s).image is None && final(s).opacity.bits == OPAQUE && final(s).image_opacity.bits
            == IMAGE_OPACITY,
        final(theme).theme == defaults.theme.chosen && final(theme).preference == defaults.theme
            && !final(theme).follow_system && final(theme).background is None,
        final(theme).theme == final(theme).wanted(),
        !final(switches).cover_chrome && final(switches).blur == old(switches).blur
            && final(switches).tray == old(switches).tray,
        final(choices).image_fit == defaults.image_fit && final(choices).image_alignment
            == defaults.image_alignment && final(choices).density == old(choices).density,
        final(fx).persist && final(fx).requests.set_opaque,
{
}

} // verus!
