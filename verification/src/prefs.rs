//! Settings that are switches or choices from a list.
use crate::fx::{Fx, Requests};
use crate::fonts::FontState;
use crate::modal::NebulaConfirm;
use crate::page::PageState;
use vstd::prelude::*;

verus! {

/// What can be switched on and off.
#[derive(Clone, Copy, Debug, PartialEq, Eq, Structural)]
pub struct Switches {
    pub suggestions: bool,
    pub fetch: bool,
    pub powerline: bool,
    pub blur: bool,
    pub keep_session: bool,
    pub restore_session: bool,
    pub resume_ai: bool,
    pub tray: bool,
    pub cover_chrome: bool,
    pub cursor_blink: bool,
    pub copy_on_select: bool,
    pub cjk_bold_regular: bool,
    pub panel_resize: bool,
}

/// What is picked from a list, each as the code of its entry.
#[derive(Clone, Copy, Debug, PartialEq, Eq, Structural)]
pub struct Choices {
    pub accept: u8,
    pub completion_style: u8,
    pub image_fit: u8,
    pub image_alignment: u8,
    pub cursor_shape: u8,
    pub tabs_position: u8,
    pub tab_reveal: u8,
    pub density: u8,
    pub new_tab_position: u8,
    pub cell_width_mode: u8,
}

impl Switches {
    /// Switches the inline suggestion.
    pub fn toggle_ghost(&mut self, fx: &mut Fx)
        ensures
            *final(self) == (Switches { suggestions: !old(self).suggestions, ..*old(self) }),
            *final(fx) == old(fx).saved().marked(),
    {
        self.suggestions = !self.suggestions;
        fx.save();
        fx.mark();
    }

    /// Switches the blinking of the cursor.
    pub fn toggle_cursor_blink(&mut self, fx: &mut Fx)
        ensures
            *final(self) == (Switches { cursor_blink: !old(self).cursor_blink, ..*old(self) }),
            *final(fx) == old(fx).saved().marked(),
    {
        self.cursor_blink = !self.cursor_blink;
        fx.save();
        fx.mark();
    }

    /// Switches copying on selection.
    pub fn toggle_copy_on_select(&mut self, fx: &mut Fx)
        ensures
            *final(self) == (Switches { copy_on_select: !old(self).copy_on_select, ..*old(self) }),
            *final(fx) == old(fx).saved().marked(),
    {
        self.copy_on_select = !self.copy_on_select;
        fx.save();
        fx.mark();
    }

    /// Switches the system summary of new shells.
    pub fn toggle_fetch(&mut self, fx: &mut Fx)
        ensures
            *final(self) == (Switches { fetch: !old(self).fetch, ..*old(self) }),
            *final(fx) == old(fx).saved().marked(),
    {
        self.fetch = !self.fetch;
        fx.save();
        fx.mark();
    }

    /// Switches the powerline prompt.
    pub fn toggle_powerline(&mut self, fx: &mut Fx)
        ensures
            *final(self) == (Switches { powerline: !old(self).powerline, ..*old(self) }),
            *final(fx) == old(fx).saved().marked(),
    {
        self.powerline = !self.powerline;
        fx.save();
        fx.mark();
    }

    /// Switches keeping the shells of a closed window.
    pub fn toggle_keep_session(&mut self, fx: &mut Fx)
        ensures
            *final(self) == (Switches { keep_session: !old(self).keep_session, ..*old(self) }),
            *final(fx) == old(fx).saved().marked(),
    {
        self.keep_session = !self.keep_session;
        fx.save();
        fx.mark();
    }

    /// Switches opening the last tabs at the start.
    pub fn toggle_restore_session(&mut self, fx: &mut Fx)
        ensures
            *final(self) == (Switches { restore_session: !old(self).restore_session, ..*old(self) }),
            *final(fx) == old(fx).saved().marked(),
    {
        self.restore_session = !self.restore_session;
        fx.save();
        fx.mark();
    }

    /// Switches continuing assistant sessions on restore.
    pub fn toggle_resume_ai(&mut self, fx: &mut Fx)
        ensures
            *final(self) == (Switches { resume_ai: !old(self).resume_ai, ..*old(self) }),
            *final(fx) == old(fx).saved().marked(),
    {
        self.resume_ai = !self.resume_ai;
        fx.save();
        fx.mark();
    }

    /// Switches the blur behind the window, at once.
    pub fn toggle_blur(&mut self, fx: &mut Fx)
        ensures
            *final(self) == (Switches { blur: !old(self).blur, ..*old(self) }),
            *final(fx) == old(fx).asking(
                Requests { set_blur: Some(!old(self).blur), ..old(fx).requests },
            ).saved().marked(),
    {
        self.blur = !self.blur;
        let requests = Requests { set_blur: Some(self.blur), ..fx.requests };
        fx.ask(requests);
        fx.save();
        fx.mark();
    }

    /// Switches the tray icon, at once.
    pub fn toggle_tray(&mut self, fx: &mut Fx)
        ensures
            *final(self) == (Switches { tray: !old(self).tray, ..*old(self) }),
            *final(fx) == old(fx).asking(
                Requests { set_tray: Some(!old(self).tray), ..old(fx).requests },
            ).saved().marked(),
    {
        self.tray = !self.tray;
        let requests = Requests { set_tray: Some(self.tray), ..fx.requests };
        fx.ask(requests);
        fx.save();
        fx.mark();
    }

    /// Switches drawing bold CJK text in the regular weight. Drawn glyphs are stale.
    pub fn toggle_cjk_bold_regular(&mut self, fx: &mut Fx)
        ensures
            *final(self) == (Switches { cjk_bold_regular: !old(self).cjk_bold_regular, ..*old(self) }),
            *final(fx) == old(fx).asking(
                Requests {
                    reset_glyphs: true,
                    wide_bold_regular: Some(!old(self).cjk_bold_regular),
                    ..old(fx).requests
                },
            ).saved().marked(),
    {
        self.cjk_bold_regular = !self.cjk_bold_regular;
        let requests = Requests {
            reset_glyphs: true,
            wide_bold_regular: Some(self.cjk_bold_regular),
            ..fx.requests
        };
        fx.ask(requests);
        fx.save();
        fx.mark();
    }

    /// Switches whether the background image lies under the window controls: off at once, on
    /// after a confirmation.
    pub fn request_toggle_background_image_cover_chrome(
        &mut self,
        confirm: &mut Option<NebulaConfirm>,
        fx: &mut Fx,
    )
        ensures
            *final(self) == (Switches { cover_chrome: false, ..*old(self) }),
            old(self).cover_chrome ==> *final(confirm) == *old(confirm) && *final(fx)
                == old(fx).saved().marked(),
            !old(self).cover_chrome ==> *final(confirm) == Some(
                NebulaConfirm::EnableBackgroundImageCoverChrome,
            ) && *final(fx) == old(fx).marked(),
    {
        if self.cover_chrome {
            self.cover_chrome = false;
            fx.save();
        } else {
            *confirm = Some(NebulaConfirm::EnableBackgroundImageCoverChrome);
        }
        fx.mark();
    }

    pub fn confirm_background_image_cover_chrome(
        &mut self,
        confirm: &mut Option<NebulaConfirm>,
        fx: &mut Fx,
    )
        ensures
            *final(confirm) is None,
            *final(self) == (Switches { cover_chrome: true, ..*old(self) }),
            *final(fx) == old(fx).saved().marked(),
    {
        *confirm = None;
        self.cover_chrome = true;
        fx.save();
        fx.mark();
    }

    /// Switches whether panel edges can be dragged: off at once, on after a confirmation.
    pub fn request_toggle_panel_resize(
        &mut self,
        confirm: &mut Option<NebulaConfirm>,
        fx: &mut Fx,
    )
        ensures
            *final(self) == (Switches { panel_resize: false, ..*old(self) }),
            old(self).panel_resize ==> *final(confirm) == *old(confirm) && *final(fx)
                == old(fx).saved().marked(),
            !old(self).panel_resize ==> *final(confirm) == Some(
                NebulaConfirm::EnablePanelResize,
            ) && *final(fx) == old(fx).marked(),
    {
        if self.panel_resize {
            self.panel_resize = false;
            fx.save();
        } else {
            *confirm = Some(NebulaConfirm::EnablePanelResize);
        }
        fx.mark();
    }

    pub fn confirm_panel_resize(
        &mut self,
        confirm: &mut Option<NebulaConfirm>,
        fx: &mut Fx,
    )
        ensures
            *final(confirm) is None,
            *final(self) == (Switches { panel_resize: true, ..*old(self) }),
            *final(fx) == old(fx).saved().touched(),
    {
        *confirm = None;
        self.panel_resize = true;
        fx.save();
        fx.touch();
    }
}

/// A list on the page is closed, whichever it is.
pub open spec fn list_closed(page: PageState) -> PageState {
    PageState { dropdown: None, ..page }
}

impl Choices {
    /// Picks how completions are shown and closes the list. `choice` is the picked entry,
    /// `None` for a row that
    /// has none.
    pub fn set_completion_style_option(
        &mut self,
        choice: Option<u8>,
        page: &mut PageState,
        fx: &mut Fx,
    )
        ensures
            *final(page) == list_closed(*old(page)),
            choice is None ==> *final(self) == *old(self) && *final(fx) == old(fx).marked(),
            choice matches Some(c) ==> *final(self) == (Choices {
                completion_style: c,
                ..*old(self)
            }) && *final(fx) == old(fx).saved().marked(),
    {
        if let Some(c) = choice {
            self.completion_style = c;
            fx.save();
        }
        page.dropdown = None;
        fx.mark();
    }

    /// Picks how the background image fills the window and closes the list. `choice` is the
    /// picked entry, `None` for a row that
    /// has none.
    pub fn set_background_image_fit_option(
        &mut self,
        choice: Option<u8>,
        page: &mut PageState,
        fx: &mut Fx,
    )
        ensures
            *final(page) == list_closed(*old(page)),
            choice is None ==> *final(self) == *old(self) && *final(fx) == old(fx).marked(),
            choice matches Some(c) ==> *final(self) == (Choices {
                image_fit: c,
                ..*old(self)
            }) && *final(fx) == old(fx).saved().marked(),
    {
        if let Some(c) = choice {
            self.image_fit = c;
            fx.save();
        }
        page.dropdown = None;
        fx.mark();
    }

    /// Picks where the background image stands and closes the list. `choice` is the picked
    /// entry, `None` for a row that
    /// has none.
    pub fn set_background_image_alignment_option(
        &mut self,
        choice: Option<u8>,
        page: &mut PageState,
        fx: &mut Fx,
    )
        ensures
            *final(page) == list_closed(*old(page)),
            choice is None ==> *final(self) == *old(self) && *final(fx) == old(fx).marked(),
            choice matches Some(c) ==> *final(self) == (Choices {
                image_alignment: c,
                ..*old(self)
            }) && *final(fx) == old(fx).saved().marked(),
    {
        if let Some(c) = choice {
            self.image_alignment = c;
            fx.save();
        }
        page.dropdown = None;
        fx.mark();
    }

    /// Picks the key that accepts a suggestion and closes the list. `choice` is the picked
    /// entry, `None` for a row that
    /// has none.
    pub fn set_accept_option(
        &mut self,
        choice: Option<u8>,
        page: &mut PageState,
        fx: &mut Fx,
    )
        ensures
            *final(page) == list_closed(*old(page)),
            choice is None ==> *final(self) == *old(self) && *final(fx) == old(fx).marked(),
            choice matches Some(c) ==> *final(self) == (Choices {
                accept: c,
                ..*old(self)
            }) && *final(fx) == old(fx).saved().marked(),
    {
        if let Some(c) = choice {
            self.accept = c;
            fx.save();
        }
        page.dropdown = None;
        fx.mark();
    }

    /// Picks how new tabs appear and closes the list. `choice` is the picked entry, `None` for
    /// a row that
    /// has none.
    pub fn set_tab_reveal_option(
        &mut self,
        choice: Option<u8>,
        page: &mut PageState,
        fx: &mut Fx,
    )
        ensures
            *final(page) == list_closed(*old(page)),
            choice is None ==> *final(self) == *old(self) && *final(fx) == old(fx).marked(),
            choice matches Some(c) ==> *final(self) == (Choices {
                tab_reveal: c,
                ..*old(self)
            }) && *final(fx) == old(fx).saved().marked(),
    {
        if let Some(c) = choice {
            self.tab_reveal = c;
            fx.save();
        }
        page.dropdown = None;
        fx.mark();
    }

    /// Picks where new tabs go and closes the list. `choice` is the picked entry, `None` for a
    /// row that
    /// has none.
    pub fn set_new_tab_position_option(
        &mut self,
        choice: Option<u8>,
        page: &mut PageState,
        fx: &mut Fx,
    )
        ensures
            *final(page) == list_closed(*old(page)),
            choice is None ==> *final(self) == *old(self) && *final(fx) == old(fx).marked(),
            choice matches Some(c) ==> *final(self) == (Choices {
                new_tab_position: c,
                ..*old(self)
            }) && *final(fx) == old(fx).saved().marked(),
    {
        if let Some(c) = choice {
            self.new_tab_position = c;
            fx.save();
        }
        page.dropdown = None;
        fx.mark();
    }

    /// Takes the next of the key that accepts a suggestion.
    pub fn cycle_accept(&mut self, next: u8, fx: &mut Fx)
        ensures
            *final(self) == (Choices { accept: next, ..*old(self) }),
            *final(fx) == old(fx).saved().marked(),
    {
        self.accept = next;
        fx.save();
        fx.mark();
    }

    /// Takes the next of the way completions are shown.
    pub fn cycle_completion_style(&mut self, next: u8, fx: &mut Fx)
        ensures
            *final(self) == (Choices { completion_style: next, ..*old(self) }),
            *final(fx) == old(fx).saved().marked(),
    {
        self.completion_style = next;
        fx.save();
        fx.mark();
    }

    /// Picks the density of the interface. A new one lays the grid out again; the list
    /// closes either way.
    pub fn set_density_option(
        &mut self,
        choice: Option<u8>,
        page: &mut PageState,
        fx: &mut Fx,
    )
        ensures
            *final(page) == list_closed(*old(page)),
            ({
                let changed = choice matches Some(c) && c != old(self).density;
                &&& changed ==> *final(self) == (Choices { density: choice->0, ..*old(self) })
                    && *final(fx) == old(fx).saved().reflowed().touched()
                &&& !changed ==> *final(self) == *old(self) && *final(fx) == old(fx).touched()
            }),
    {
        if let Some(c) = choice {
            if c != self.density {
                self.density = c;
                fx.save();
                fx.reflow();
            }
        }
        page.dropdown = None;
        fx.touch();
    }

    /// Picks how wide a cell is. A new way asks for the font again, which measures the
    /// cells anew.
    pub fn set_cell_width_mode_option(
        &mut self,
        choice: Option<u8>,
        font: &FontState,
        page: &mut PageState,
        fx: &mut Fx,
    )
        ensures
            *final(page) == list_closed(*old(page)),
            ({
                let changed = choice matches Some(c) && c != old(self).cell_width_mode;
                &&& changed ==> *final(self) == (Choices {
                    cell_width_mode: choice->0,
                    ..*old(self)
                }) && *final(fx) == old(fx).saved().font_queued(font.in_use())
                &&& !changed ==> *final(self) == *old(self) && *final(fx) == old(fx).marked()
            }),
    {
        if let Some(c) = choice {
            if c != self.cell_width_mode {
                self.cell_width_mode = c;
                fx.save();
                let request = font.effective_font();
                fx.queue_font(request);
            }
        }
        page.dropdown = None;
        fx.mark();
    }

    /// Picks the shape of the cursor. The result tells whether it changed.
    pub fn set_cursor_shape_option(
        &mut self,
        choice: Option<u8>,
        page: &mut PageState,
        fx: &mut Fx,
    ) -> (r: bool)
        ensures
            *final(page) == list_closed(*old(page)),
            r == (choice matches Some(c) && c != old(self).cursor_shape),
            r ==> *final(self) == (Choices { cursor_shape: choice->0, ..*old(self) })
                && *final(fx) == old(fx).marked().saved(),
            !r ==> *final(self) == *old(self) && *final(fx) == old(fx).marked(),
    {
        page.dropdown = None;
        fx.mark();
        match choice {
            Some(c) => {
                if self.cursor_shape == c {
                    return false;
                }
                self.cursor_shape = c;
                fx.save();
                true
            },
            None => false,
        }
    }
}

/// The cursor that terminals fall back to: its shape and whether it blinks.
pub fn nebula_default_cursor_style(choices: &Choices, switches: &Switches) -> (r: (u8, bool))
    ensures
        r == (choices.cursor_shape, switches.cursor_blink),
{
    (choices.cursor_shape, switches.cursor_blink)
}

/// Whether every switch but one stayed; they are counted in the order of their fields.
pub open spec fn others_stay(was: Switches, now: Switches, index: int) -> bool {
    &&& index == 0 || now.suggestions == was.suggestions
    &&& index == 1 || now.fetch == was.fetch
    &&& index == 2 || now.powerline == was.powerline
    &&& index == 3 || now.blur == was.blur
    &&& index == 4 || now.keep_session == was.keep_session
    &&& index == 5 || now.restore_session == was.restore_session
    &&& index == 6 || now.resume_ai == was.resume_ai
    &&& index == 7 || now.tray == was.tray
    &&& index == 8 || now.cover_chrome == was.cover_chrome
    &&& index == 9 || now.cursor_blink == was.cursor_blink
    &&& index == 10 || now.copy_on_select == was.copy_on_select
    &&& index == 11 || now.cjk_bold_regular == was.cjk_bold_regular
    &&& index == 12 || now.panel_resize == was.panel_resize
}

/// The switch of suggestions turns itself over and no other, and is written down.
pub proof fn suggestions_is_switched_alone(s: &mut Switches, fx: &mut Fx)
    requires
        call_ensures(Switches::toggle_ghost, (s, fx), ()),
    ensures
        others_stay(*old(s), *final(s), 0),
        final(s).suggestions != old(s).suggestions,
        final(fx).persist && final(fx).update.dirty,
{
}

/// The switch of cursor blink turns itself over and no other, and is written down.
pub proof fn cursor_blink_is_switched_alone(s: &mut Switches, fx: &mut Fx)
    requires
        call_ensures(Switches::toggle_cursor_blink, (s, fx), ()),
    ensures
        others_stay(*old(s), *final(s), 9),
        final(s).cursor_blink != old(s).cursor_blink,
        final(fx).persist && final(fx).update.dirty,
{
}

/// The switch of copy on select turns itself over and no other, and is written down.
pub proof fn copy_on_select_is_switched_alone(s: &mut Switches, fx: &mut Fx)
    requires
        call_ensures(Switches::toggle_copy_on_select, (s, fx), ()),
    ensures
        others_stay(*old(s), *final(s), 10),
        final(s).copy_on_select != old(s).copy_on_select,
        final(fx).persist && final(fx).update.dirty,
{
}

/// The switch of fetch turns itself over and no other, and is written down.
pub proof fn fetch_is_switched_alone(s: &mut Switches, fx: &mut Fx)
    requires
        call_ensures(Switches::toggle_fetch, (s, fx), ()),
    ensures
        others_stay(*old(s), *final(s), 1),
        final(s).fetch != old(s).fetch,
        final(fx).persist && final(fx).update.dirty,
{
}

/// The switch of powerline turns itself over and no other, and is written down.
pub proof fn powerline_is_switched_alone(s: &mut Switches, fx: &mut Fx)
    requires
        call_ensures(Switches::toggle_powerline, (s, fx), ()),
    ensures
        others_stay(*old(s), *final(s), 2),
        final(s).powerline != old(s).powerline,
        final(fx).persist && final(fx).update.dirty,
{
}

/// The switch of keep session turns itself over and no other, and is written down.
pub proof fn keep_session_is_switched_alone(s: &mut Switches, fx: &mut Fx)
    requires
        call_ensures(Switches::toggle_keep_session, (s, fx), ()),
    ensures
        others_stay(*old(s), *final(s), 4),
        final(s).keep_session != old(s).keep_session,
        final(fx).persist && final(fx).update.dirty,
{
}

/// The switch of restore session turns itself over and no other, and is written down.
pub proof fn restore_session_is_switched_alone(s: &mut Switches, fx: &mut Fx)
    requires
        call_ensures(Switches::toggle_restore_session, (s, fx), ()),
    ensures
        others_stay(*old(s), *final(s), 5),
        final(s).restore_session != old(s).restore_session,
        final(fx).persist && final(fx).update.dirty,
{
}

/// The switch of resume ai turns itself over and no other, and is written down.
pub proof fn resume_ai_is_switched_alone(s: &mut Switches, fx: &mut Fx)
    requires
        call_ensures(Switches::toggle_resume_ai, (s, fx), ()),
    ensures
        others_stay(*old(s), *final(s), 6),
        final(s).resume_ai != old(s).resume_ai,
        final(fx).persist && final(fx).update.dirty,
{
}

/// The switch of blur turns itself over and no other, and is written down.
pub proof fn blur_is_switched_alone(s: &mut Switches, fx: &mut Fx)
    requires
        call_ensures(Switches::toggle_blur, (s, fx), ()),
    ensures
        others_stay(*old(s), *final(s), 3),
        final(s).blur != old(s).blur,
        final(fx).persist && final(fx).update.dirty,
        final(fx).requests.set_blur == Some(final(s).blur),
{
}

/// The switch of tray turns itself over and no other, and is written down.
pub proof fn tray_is_switched_alone(s: &mut Switches, fx: &mut Fx)
    requires
        call_ensures(Switches::toggle_tray, (s, fx), ()),
    ensures
        others_stay(*old(s), *final(s), 7),
        final(s).tray != old(s).tray,
        final(fx).persist && final(fx).update.dirty,
        final(fx).requests.set_tray == Some(final(s).tray),
{
}

/// The switch of cjk bold regular turns itself over and no other, and is written down.
pub proof fn cjk_bold_regular_is_switched_alone(s: &mut Switches, fx: &mut Fx)
    requires
        call_ensures(Switches::toggle_cjk_bold_regular, (s, fx), ()),
    ensures
        others_stay(*old(s), *final(s), 11),
        final(s).cjk_bold_regular != old(s).cjk_bold_regular,
        final(fx).persist && final(fx).update.dirty,
        final(fx).requests.reset_glyphs && final(fx).requests.wide_bold_regular == Some(
            final(s).cjk_bold_regular,
        ),
{
}

/// Turning cover chrome on asks first and turns it on with the answer; turning it off does not ask.
pub proof fn cover_chrome_is_asked_for(
    s: &mut Switches,
    confirm: &mut Option<NebulaConfirm>,
    fx: &mut Fx,
    t: &mut Switches,
    answer: &mut Option<NebulaConfirm>,
    fx2: &mut Fx,
)
    requires
        call_ensures(Switches::request_toggle_background_image_cover_chrome, (s, confirm, fx), ()),
        call_ensures(Switches::confirm_background_image_cover_chrome, (t, answer, fx2), ()),
    ensures
        !final(s).cover_chrome && final(t).cover_chrome,
        old(s).cover_chrome ==> *final(confirm) == *old(confirm) && final(fx).persist,
        !old(s).cover_chrome ==> (*final(confirm) matches Some(c) && c is EnableBackgroundImageCoverChrome),
        *final(answer) is None && final(fx2).persist,
        others_stay(*old(s), *final(s), 8),
        others_stay(*old(t), *final(t), 8),
{
}

/// Turning panel resize on asks first and turns it on with the answer; turning it off does not ask.
pub proof fn panel_resize_is_asked_for(
    s: &mut Switches,
    confirm: &mut Option<NebulaConfirm>,
    fx: &mut Fx,
    t: &mut Switches,
    answer: &mut Option<NebulaConfirm>,
    fx2: &mut Fx,
)
    requires
        call_ensures(Switches::request_toggle_panel_resize, (s, confirm, fx), ()),
        call_ensures(Switches::confirm_panel_resize, (t, answer, fx2), ()),
    ensures
        !final(s).panel_resize && final(t).panel_resize,
        old(s).panel_resize ==> *final(confirm) == *old(confirm) && final(fx).persist,
        !old(s).panel_resize ==> (*final(confirm) matches Some(c) && c is EnablePanelResize),
        *final(answer) is None && final(fx2).persist,
        others_stay(*old(s), *final(s), 12),
        others_stay(*old(t), *final(t), 12),
{
}

/// Whether one choice became `value` and every other one stayed; they are counted in the
/// order of their fields.
pub open spec fn only_chosen(was: Choices, now: Choices, index: int, value: u8) -> bool {
    &&& now.accept == (if index == 0 { value } else { was.accept })
    &&& now.completion_style == (if index == 1 { value } else { was.completion_style })
    &&& now.image_fit == (if index == 2 { value } else { was.image_fit })
    &&& now.image_alignment == (if index == 3 { value } else { was.image_alignment })
    &&& now.cursor_shape == (if index == 4 { value } else { was.cursor_shape })
    &&& now.tabs_position == (if index == 5 { value } else { was.tabs_position })
    &&& now.tab_reveal == (if index == 6 { value } else { was.tab_reveal })
    &&& now.density == (if index == 7 { value } else { was.density })
    &&& now.new_tab_position == (if index == 8 { value } else { was.new_tab_position })
    &&& now.cell_width_mode == (if index == 9 { value } else { was.cell_width_mode })
}

/// A choice of completion style is taken alone, and its list closes; no choice changes nothing.
pub proof fn completion_style_is_chosen_alone(
    c: &mut Choices,
    choice: Option<u8>,
    page: &mut PageState,
    fx: &mut Fx,
)
    requires
        call_ensures(Choices::set_completion_style_option, (c, choice, page, fx), ()),
    ensures
        choice matches Some(v) ==> only_chosen(*old(c), *final(c), 1, v),
        choice is None ==> *final(c) == *old(c),
        final(page).dropdown is None && final(page).section == old(page).section,
        *final(c) != *old(c) ==> final(fx).persist,
{
}

/// A choice of image fit is taken alone, and its list closes; no choice changes nothing.
pub proof fn image_fit_is_chosen_alone(
    c: &mut Choices,
    choice: Option<u8>,
    page: &mut PageState,
    fx: &mut Fx,
)
    requires
        call_ensures(Choices::set_background_image_fit_option, (c, choice, page, fx), ()),
    ensures
        choice matches Some(v) ==> only_chosen(*old(c), *final(c), 2, v),
        choice is None ==> *final(c) == *old(c),
        final(page).dropdown is None && final(page).section == old(page).section,
        *final(c) != *old(c) ==> final(fx).persist,
{
}

/// A choice of image alignment is taken alone, and its list closes; no choice changes nothing.
pub proof fn image_alignment_is_chosen_alone(
    c: &mut Choices,
    choice: Option<u8>,
    page: &mut PageState,
    fx: &mut Fx,
)
    requires
        call_ensures(Choices::set_background_image_alignment_option, (c, choice, page, fx), ()),
    ensures
        choice matches Some(v) ==> only_chosen(*old(c), *final(c), 3, v),
        choice is None ==> *final(c) == *old(c),
        final(page).dropdown is None && final(page).section == old(page).section,
        *final(c) != *old(c) ==> final(fx).persist,
{
}

/// A choice of accept is taken alone, and its list closes; no choice changes nothing.
pub proof fn accept_is_chosen_alone(
    c: &mut Choices,
    choice: Option<u8>,
    page: &mut PageState,
    fx: &mut Fx,
)
    requires
        call_ensures(Choices::set_accept_option, (c, choice, page, fx), ()),
    ensures
        choice matches Some(v) ==> only_chosen(*old(c), *final(c), 0, v),
        choice is None ==> *final(c) == *old(c),
        final(page).dropdown is None && final(page).section == old(page).section,
        *final(c) != *old(c) ==> final(fx).persist,
{
}

/// A choice of tab reveal is taken alone, and its list closes; no choice changes nothing.
pub proof fn tab_reveal_is_chosen_alone(
    c: &mut Choices,
    choice: Option<u8>,
    page: &mut PageState,
    fx: &mut Fx,
)
    requires
        call_ensures(Choices::set_tab_reveal_option, (c, choice, page, fx), ()),
    ensures
        choice matches Some(v) ==> only_chosen(*old(c), *final(c), 6, v),
        choice is None ==> *final(c) == *old(c),
        final(page).dropdown is None && final(page).section == old(page).section,
        *final(c) != *old(c) ==> final(fx).persist,
{
}

/// A choice of new tab position is taken alone, and its list closes; no choice changes nothing.
pub proof fn new_tab_position_is_chosen_alone(
    c: &mut Choices,
    choice: Option<u8>,
    page: &mut PageState,
    fx: &mut Fx,
)
    requires
        call_ensures(Choices::set_new_tab_position_option, (c, choice, page, fx), ()),
    ensures
        choice matches Some(v) ==> only_chosen(*old(c), *final(c), 8, v),
        choice is None ==> *final(c) == *old(c),
        final(page).dropdown is None && final(page).section == old(page).section,
        *final(c) != *old(c) ==> final(fx).persist,
{
}

/// A choice of density is taken alone, and its list closes; no choice changes nothing.
pub proof fn density_is_chosen_alone(
    c: &mut Choices,
    choice: Option<u8>,
    page: &mut PageState,
    fx: &mut Fx,
)
    requires
        call_ensures(Choices::set_density_option, (c, choice, page, fx), ()),
    ensures
        choice matches Some(v) ==> only_chosen(*old(c), *final(c), 7, v),
        choice is None ==> *final(c) == *old(c),
        final(page).dropdown is None && final(page).section == old(page).section,
        *final(c) != *old(c) ==> final(fx).persist,
{
}

/// The keys that walk through a choice set it alone.
pub proof fn cycled_choices_are_set_alone(
    c: &mut Choices,
    next: u8,
    fx: &mut Fx,
    d: &mut Choices,
    style: u8,
    fx2: &mut Fx,
)
    requires
        call_ensures(Choices::cycle_accept, (c, next, fx), ()),
        call_ensures(Choices::cycle_completion_style, (d, style, fx2), ()),
    ensures
        only_chosen(*old(c), *final(c), 0, next),
        only_chosen(*old(d), *final(d), 1, style),
        final(fx).persist && final(fx2).persist,
{
}

/// The width of cells and the shape of the cursor are set alone; another width asks for the
/// font again.
pub proof fn cell_width_and_cursor_are_set_alone(
    c: &mut Choices,
    width: Option<u8>,
    font: FontState,
    page: &mut PageState,
    fx: &mut Fx,
    d: &mut Choices,
    shape: Option<u8>,
    page2: &mut PageState,
    fx2: &mut Fx,
    r: bool,
)
    requires
        call_ensures(Choices::set_cell_width_mode_option, (c, width, &font, page, fx), ()),
        call_ensures(Choices::set_cursor_shape_option, (d, shape, page2, fx2), r),
    ensures
        width matches Some(v) ==> only_chosen(*old(c), *final(c), 9, v),
        width is None ==> *final(c) == *old(c),
        final(c).cell_width_mode != old(c).cell_width_mode ==> final(fx).update.font == Some(
            font.in_use(),
        ) && final(fx).persist,
        shape matches Some(v) ==> only_chosen(*old(d), *final(d), 4, v),
        shape is None ==> *final(d) == *old(d),
        r <==> final(d).cursor_shape != old(d).cursor_shape,
        final(page).dropdown is None && final(page2).dropdown is None,
{
}

} // verus!
