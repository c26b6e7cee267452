//! The settings page: its sections, lists and the background color field.
use crate::color::{Px, Rgb};
use crate::fonts::FontState;
use crate::fx::{Fx, Requests};
use crate::theme::ThemeState;
use crate::words::{trim_chars, trimmed};
use vstd::prelude::*;

verus! {


/// A list that can be open on the settings page; one at a time.
#[derive(Clone, Copy, Debug, PartialEq, Eq, Structural)]
pub enum SettingsDropdown {
    Shell,
    Font,
    BackgroundColor,
    Other(u8),
}

/// A section of the settings page.
#[derive(Clone, Copy, Debug, PartialEq, Eq, Structural)]
pub enum NebulaSettingsSection {
    Proxy,
    Providers,
    Other(u8),
}

/// A text field of the settings page that a pointer drag selects in.
#[derive(Clone, Copy, Debug, PartialEq, Eq, Structural)]
pub enum TextDrag {
    Font,
    Keymap,
    Proxy(usize),
    Provider(usize),
}

/// The page itself. Targets under the pointer are codes; zero is none.
#[derive(Clone, Copy, Debug, PartialEq, Eq, Structural)]
pub struct PageState {
    pub open: bool,
    pub special_tab: bool,
    pub section: NebulaSettingsSection,
    pub scroll: Px,
    pub dropdown: Option<SettingsDropdown>,
    pub text_drag: Option<TextDrag>,
    pub chrome_hover: u32,
    pub settings_hover: u32,
    pub settings_pressed: u32,
    pub message_close: bool,
    pub message_close_hover: bool,
}

/// The field and the swatches for the background color.
#[derive(Debug)]
pub struct ColorState {
    pub hex: Vec<char>,
    pub hex_active: bool,
    pub palette_index: usize,
    pub swatches: Vec<Rgb>,
    pub picker_drag: bool,
}

/// The page with its color field and its font list.
#[derive(Debug)]
pub struct SettingsUi {
    pub page: PageState,
    pub color: ColorState,
    pub font: FontState,
}

/// Longest color text: a number sign and six digits.
pub const HEX_MAX: usize = 7;

pub open spec fn is_hex_digit(c: char) -> bool {
    '0' <= c <= '9' || 'a' <= c <= 'f' || 'A' <= c <= 'F'
}

/// The upper-case hexadecimal digit for a value below sixteen.
pub open spec fn hex_digit(v: int) -> char {
    if v < 10 {
        (v + '0' as int) as char
    } else {
        (v - 10 + 'A' as int) as char
    }
}

/// A color as `#RRGGBB`.
pub open spec fn hex_text(c: Rgb) -> Seq<char> {
    seq![
        '#',
        hex_digit(c.r as int / 16),
        hex_digit(c.r as int % 16),
        hex_digit(c.g as int / 16),
        hex_digit(c.g as int % 16),
        hex_digit(c.b as int / 16),
        hex_digit(c.b as int % 16),
    ]
}

fn hex_digit_of(v: u8) -> (c: char)
    requires
        v < 16,
    ensures
        c == hex_digit(v as int),
{
    if v < 10 {
        (v + 48) as char
    } else {
        (v - 10 + 65) as char
    }
}

/// A color as the characters of `#RRGGBB`.
pub fn hex_chars(c: Rgb) -> (v: Vec<char>)
    ensures
        v@ == hex_text(c),
{
    let mut v: Vec<char> = Vec::new();
    v.push('#');
    v.push(hex_digit_of(c.r / 16));
    v.push(hex_digit_of(c.r % 16));
    v.push(hex_digit_of(c.g / 16));
    v.push(hex_digit_of(c.g % 16));
    v.push(hex_digit_of(c.b / 16));
    v.push(hex_digit_of(c.b % 16));
    proof {
        assert(v@ =~= hex_text(c));
    }
    v
}

impl ColorState {
    fn set_hex(&mut self, color: Rgb)
        ensures
            final(self).hex@ == hex_text(color),
            *final(self) == (ColorState {
                hex: final(self).hex,
                hex_active: false,
                ..*old(self)
            }),
    {
        self.hex = hex_chars(color);
        self.hex_active = false;
    }
}

impl PageState {
    /// The page once the pointer left every control and no field is dragged in.
    pub open spec fn left(self) -> PageState {
        PageState {
            dropdown: None,
            settings_hover: 0,
            settings_pressed: 0,
            text_drag: None,
            ..self
        }
    }

    /// Turns to a section; another one starts at its top. The result tells whether it is
    /// another one.
    pub fn turn_to(&mut self, section: NebulaSettingsSection) -> (r: bool)
        ensures
            r == (old(self).section != section),
            *final(self) == (PageState {
                section,
                scroll: if r {
                    (Px { bits: 0 })
                } else {
                    old(self).scroll
                },
                ..*old(self)
            }),
    {
        if self.section == section {
            return false;
        }
        self.section = section;
        self.scroll = Px { bits: 0 };
        true
    }

    /// Opens the page at its top.
    pub fn open_at_top(&mut self)
        ensures
            *final(self) == (PageState {
                open: true,
                special_tab: true,
                scroll: (Px { bits: 0 }),
                text_drag: None,
                ..*old(self)
            }),
    {
        self.open = true;
        self.special_tab = true;
        self.scroll = Px { bits: 0 };
        self.text_drag = None;
    }

    /// Closes the page; nothing of it stays hovered, open or dragged in.
    pub fn close(&mut self)
        ensures
            *final(self) == (PageState { open: false, ..old(self).left() }),
    {
        self.open = false;
        self.dropdown = None;
        self.settings_hover = 0;
        self.settings_pressed = 0;
        self.text_drag = None;
    }

    pub fn end_settings_text_drag(&mut self) -> (r: bool)
        ensures
            r == old(self).text_drag is Some,
            *final(self) == (PageState { text_drag: None, ..*old(self) }),
    {
        let r: bool = self.text_drag.is_some();
        self.text_drag = None;
        r
    }

    pub fn settings_open(&self) -> (r: bool)
        ensures
            r == self.open,
    {
        self.open
    }

    pub fn settings_section(&self) -> (s: NebulaSettingsSection)
        ensures
            s == self.section,
    {
        self.section
    }

    /// How far the page is scrolled.
    pub fn settings_scroll(&self) -> (p: Px)
        ensures
            p == self.scroll,
    {
        self.scroll
    }

    /// Scrolls the page to `next` where that differs. A closed page does not scroll.
    pub fn settings_scroll_by(&mut self, next: Px, differs: bool, fx: &mut Fx)
        ensures
            old(self).open && differs ==> *final(self) == (PageState { scroll: next, ..*old(self) })
                && *final(fx) == old(fx).touched(),
            !(old(self).open && differs) ==> *final(self) == *old(self) && *final(fx) == *old(fx),
    {
        if self.open && differs {
            self.scroll = next;
            fx.touch();
        }
    }

    /// Remembers what is under the pointer.
    pub fn set_chrome_hover(&mut self, chrome: u32, settings: u32, fx: &mut Fx)
        ensures
            *final(self) == (PageState {
                chrome_hover: chrome,
                settings_hover: settings,
                ..*old(self)
            }),
            *final(fx) == (if *final(self) != *old(self) {
                old(fx).marked()
            } else {
                *old(fx)
            }),
    {
        if self.chrome_hover != chrome || self.settings_hover != settings {
            self.chrome_hover = chrome;
            self.settings_hover = settings;
            fx.mark();
        }
    }

    /// Remembers the control that is held down.
    pub fn set_settings_pressed(&mut self, hit: u32, fx: &mut Fx)
        ensures
            *final(self) == (PageState { settings_pressed: hit, ..*old(self) }),
            *final(fx) == (if *final(self) != *old(self) {
                old(fx).touched()
            } else {
                *old(fx)
            }),
    {
        if self.settings_pressed != hit {
            self.settings_pressed = hit;
            fx.touch();
        }
    }

    pub fn set_message_close_hover(&mut self, hovered: bool, fx: &mut Fx)
        ensures
            *final(self) == (PageState { message_close_hover: hovered, ..*old(self) }),
            *final(fx) == (if *final(self) != *old(self) {
                old(fx).touched()
            } else {
                *old(fx)
            }),
    {
        if self.message_close_hover != hovered {
            self.message_close_hover = hovered;
            fx.touch();
        }
    }

    /// Whether the close button of the message bar is drawn, and how strong its fill
    /// is. A page other than a terminal has no message bar.
    pub fn draw_message_close(&self) -> (r: Option<u8>)
        ensures
            r == (if self.special_tab || !self.message_close {
                None
            } else if self.message_close_hover {
                Some(64u8)
            } else {
                Some(28u8)
            }),
    {
        if self.special_tab || !self.message_close {
            return None;
        }
        if self.message_close_hover {
            Some(64)
        } else {
            Some(28)
        }
    }
}

impl ColorState {
    /// Takes the next swatch as the background color.
    pub fn cycle_background_color(&mut self, theme: &mut ThemeState, fx: &mut Fx)
        requires
            0 < old(self).swatches@.len(),
            old(self).palette_index < usize::MAX,
        ensures
            ({
                let next = (old(self).palette_index + 1) % (old(self).swatches@.len() as int);
                &&& *final(self) == (ColorState { palette_index: next as usize, ..*old(self) })
                &&& *final(theme) == (ThemeState {
                    background: Some(old(self).swatches@[next]),
                    ..*old(theme)
                })
                &&& *final(fx) == old(fx).saved().marked()
            }),
    {
        let next: usize = (self.palette_index + 1) % self.swatches.len();
        self.palette_index = next;
        theme.background = Some(self.swatches[next]);
        fx.save();
        fx.mark();
    }

    /// Takes a color from the palette under the pointer, without writing it down yet.
    pub fn update_bg_picker_drag(&mut self, color: Rgb, theme: &mut ThemeState, fx: &mut Fx) -> (r:
        bool)
        ensures
            r == old(self).picker_drag,
            !r ==> *final(self) == *old(self) && *final(theme) == *old(theme) && *final(fx)
                == *old(fx),
            r ==> {
                &&& final(self).hex@ == hex_text(color)
                &&& *final(self) == (ColorState {
                    hex: final(self).hex,
                    hex_active: false,
                    ..*old(self)
                })
                &&& *final(theme) == (ThemeState { background: Some(color), ..*old(theme) })
                &&& *final(fx) == old(fx).touched()
            },
    {
        if !self.picker_drag {
            return false;
        }
        theme.background = Some(color);
        self.set_hex(color);
        fx.touch();
        true
    }

    /// Starts a drag in the palette with a first color.
    pub fn begin_bg_picker_drag(&mut self, color: Rgb, theme: &mut ThemeState, fx: &mut Fx)
        ensures
            final(self).hex@ == hex_text(color),
            *final(self) == (ColorState {
                hex: final(self).hex,
                hex_active: false,
                picker_drag: true,
                ..*old(self)
            }),
            *final(theme) == (ThemeState { background: Some(color), ..*old(theme) }),
            *final(fx) == old(fx).touched(),
    {
        self.picker_drag = true;
        self.update_bg_picker_drag(color, theme, fx);
    }

    /// Ends a drag in the palette; only now the color is written down.
    pub fn finish_bg_picker_drag(&mut self, fx: &mut Fx) -> (r: bool)
        ensures
            r == old(self).picker_drag,
            *final(self) == (ColorState { picker_drag: false, ..*old(self) }),
            *final(fx) == (if r {
                old(fx).saved().marked()
            } else {
                *old(fx)
            }),
    {
        if !self.picker_drag {
            return false;
        }
        self.picker_drag = false;
        fx.save();
        fx.mark();
        true
    }

    pub fn focus_bg_hex_input(&mut self, fx: &mut Fx)
        ensures
            *final(self) == (ColorState { hex_active: true, ..*old(self) }),
            *final(fx) == old(fx).marked(),
    {
        self.hex_active = true;
        fx.mark();
    }

    /// Types into the color field: a number sign and digits only, up to `HEX_MAX`.
    pub fn bg_hex_push(&mut self, ch: char, fx: &mut Fx)
        ensures
            ({
                let taken = (ch == '#' || is_hex_digit(ch)) && old(self).hex@.len() < HEX_MAX;
                &&& *final(self) == (ColorState { hex: final(self).hex, ..*old(self) })
                &&& taken ==> final(self).hex@ == old(self).hex@.push(ch) && *final(fx)
                    == old(fx).marked()
                &&& !taken ==> final(self).hex == old(self).hex && *final(fx) == *old(fx)
            }),
    {
        let ok: bool = ch == '#' || ('0' <= ch && ch <= '9') || ('a' <= ch && ch <= 'f') || ('A'
            <= ch && ch <= 'F');
        if ok && self.hex.len() < HEX_MAX {
            self.hex.push(ch);
            fx.mark();
        }
    }

    pub fn bg_hex_backspace(&mut self, fx: &mut Fx)
        ensures
            ({
                let erased = old(self).hex@.len() > 0;
                &&& *final(self) == (ColorState { hex: final(self).hex, ..*old(self) })
                &&& erased ==> final(self).hex@ == old(self).hex@.drop_last() && *final(fx)
                    == old(fx).marked()
                &&& !erased ==> final(self).hex == old(self).hex && *final(fx) == *old(fx)
            }),
    {
        if self.hex.len() > 0 {
            self.hex.pop();
            fx.mark();
        }
    }

    /// The color text that is to be read as a color.
    pub fn bg_hex_text(&self) -> (s: String)
        ensures
            s@ == trimmed(self.hex@),
    {
        trim_chars(&self.hex)
    }
}

impl SettingsUi {
    /// `now` is this page once the list was opened, or closed where it was open.
    pub open spec fn dropdown_toggled(self, now: SettingsUi, dropdown: SettingsDropdown) -> bool {
        let opens = self.page.dropdown != Some(dropdown);
        &&& now == (SettingsUi { page: now.page, font: now.font, ..self })
        &&& now.page == (PageState {
            dropdown: if opens {
                Some(dropdown)
            } else {
                None
            },
            ..self.page
        })
        &&& opens && dropdown is Font ==> now.font == (FontState {
            notice: None,
            popup_scroll: 0,
            ..self.font
        })
        &&& !(opens && dropdown is Font) ==> now.font == self.font
    }

    /// What that asks for: the shell list needs the installed shells.
    pub open spec fn toggled_fx(self, dropdown: SettingsDropdown, fx: Fx) -> Fx {
        if self.page.dropdown != Some(dropdown) && dropdown is Shell {
            fx.asking(Requests { detect_shells: true, ..fx.requests }).marked()
        } else {
            fx.marked()
        }
    }

    /// Opens a list, or closes it where it is the open one. Opening one closes any
    /// other. The font list starts at its top without an old notice.
    pub fn toggle_settings_dropdown(&mut self, dropdown: SettingsDropdown, fx: &mut Fx)
        ensures
            old(self).dropdown_toggled(*final(self), dropdown),
            *final(fx) == old(self).toggled_fx(dropdown, *old(fx)),
    {
        let same: bool = match self.page.dropdown {
            Some(d) => d == dropdown,
            None => false,
        };
        if same {
            self.page.dropdown = None;
        } else {
            if dropdown == SettingsDropdown::Shell {
                let requests = Requests { detect_shells: true, ..fx.requests };
                fx.ask(requests);
            }
            if dropdown == SettingsDropdown::Font {
                self.font.reopen();
            }
            self.page.dropdown = Some(dropdown);
        }
        fx.mark();
    }

    /// `now` is this page once the open list was closed: a font search ends with it.
    pub open spec fn dropdown_closed(self, now: SettingsUi) -> bool {
        let searching = self.font.query.text@.len() > 0;
        &&& self.page.dropdown is None ==> now == self
        &&& self.page.dropdown is Some ==> {
            &&& now.page == (PageState { dropdown: None, ..self.page })
            &&& now.color == (ColorState { hex_active: false, ..self.color })
            &&& now.font == (FontState { query: now.font.query, popup_scroll: 0, ..self.font })
            &&& searching ==> now.font.query.text@.len() == 0 && now.font.query.caret == 0
                && now.font.query.anchor is None
            &&& !searching ==> now.font.query == self.font.query
        }
    }

    /// What closing the list asks for.
    pub open spec fn closed_fx(self, fx: Fx) -> Fx {
        if self.page.dropdown is None {
            fx
        } else {
            fx.asking(
                Requests {
                    rebuild_fonts: fx.requests.rebuild_fonts || self.font.query.text@.len() > 0,
                    refresh_ime: true,
                    ..fx.requests
                },
            ).touched()
        }
    }

    /// Closes the open list. The result tells whether there was one.
    pub fn close_settings_dropdown(&mut self, fx: &mut Fx) -> (r: bool)
        ensures
            r == old(self).page.dropdown is Some,
            old(self).dropdown_closed(*final(self)),
            *final(fx) == old(self).closed_fx(*old(fx)),
    {
        if self.page.dropdown.is_none() {
            return false;
        }
        self.page.dropdown = None;
        self.color.hex_active = false;
        let searching: bool = self.font.close();
        let requests = Requests {
            rebuild_fonts: fx.requests.rebuild_fonts || searching,
            refresh_ime: true,
            ..fx.requests
        };
        fx.ask(requests);
        fx.touch();
        true
    }

    pub fn toggle_shell_picker(&mut self, fx: &mut Fx)
        ensures
            old(self).dropdown_toggled(*final(self), SettingsDropdown::Shell),
            *final(fx) == old(self).toggled_fx(SettingsDropdown::Shell, *old(fx)),
    {
        self.toggle_settings_dropdown(SettingsDropdown::Shell, fx);
    }

    /// Starts a selection drag in the font search.
    pub fn begin_font_query_drag(&mut self, index: usize, extend: bool, fx: &mut Fx)
        requires
            old(self).font.query.wf(),
        ensures
            old(self).font.placed(final(self).font, index, extend),
            *final(self) == (SettingsUi {
                font: final(self).font,
                page: (PageState { text_drag: Some(TextDrag::Font), ..old(self).page }),
                ..*old(self)
            }),
            *final(fx) == old(fx).touched().following(),
    {
        self.font.font_query_place(index, extend, fx);
        self.page.text_drag = Some(TextDrag::Font);
        fx.follow_caret();
    }

    /// The page once it was opened.
    pub open spec fn opened(self) -> SettingsUi {
        SettingsUi {
            page: (PageState {
                open: true,
                special_tab: true,
                scroll: (Px { bits: 0 }),
                text_drag: None,
                ..self.page
            }),
            ..self
        }
    }

    /// Opens the page at its top.
    pub fn open(&mut self)
        ensures
            *final(self) == old(self).opened(),
    {
        self.page.open_at_top();
    }

    /// The page while something other than a terminal is shown: no message bar.
    pub open spec fn specially_shown(self) -> SettingsUi {
        SettingsUi {
            page: (PageState {
                special_tab: true,
                message_close: false,
                message_close_hover: false,
                ..self.page
            }),
            ..self
        }
    }

    pub fn show_special(&mut self)
        ensures
            *final(self) == old(self).specially_shown(),
    {
        self.page.special_tab = true;
        self.page.message_close = false;
        self.page.message_close_hover = false;
    }

    /// The page once a terminal is shown again.
    pub open spec fn specially_left(self) -> SettingsUi {
        SettingsUi { page: (PageState { special_tab: false, open: false, ..self.page }), ..self }
    }

    pub fn leave_special(&mut self)
        ensures
            *final(self) == old(self).specially_left(),
    {
        self.page.special_tab = false;
        self.page.open = false;
    }

    /// The page once it was closed.
    pub open spec fn closed(self) -> SettingsUi {
        SettingsUi { page: (PageState { open: false, ..self.page.left() }), ..self }
    }

    /// Closes the page.
    pub fn close(&mut self)
        ensures
            *final(self) == old(self).closed(),
    {
        self.page.close();
    }

    /// Whether a list of shells or fonts is open.
    pub open spec fn picker_open(self) -> bool {
        self.page.dropdown == Some(SettingsDropdown::Shell) || self.page.dropdown == Some(
            SettingsDropdown::Font,
        )
    }

    /// `now` is this page turned to a section: an open list of shells or fonts closes, and
    /// another section starts at its top.
    pub open spec fn turned(self, now: SettingsUi, section: NebulaSettingsSection) -> bool {
        let before = SettingsUi {
            page: (PageState {
                section: self.page.section,
                scroll: self.page.scroll,
                ..now.page
            }),
            ..now
        };
        &&& self.picker_open() ==> self.dropdown_closed(before)
        &&& !self.picker_open() ==> before == self
        &&& now.page.section == section
        &&& now.page.scroll == (if self.page.section != section {
            (Px { bits: 0 })
        } else {
            self.page.scroll
        })
    }

    /// What turning to a section asks for.
    pub open spec fn turned_fx(self, section: NebulaSettingsSection, fx: Fx) -> Fx {
        let closed = if self.picker_open() {
            self.closed_fx(fx)
        } else {
            fx
        };
        if self.page.section != section {
            closed.marked()
        } else {
            closed
        }
    }

    pub fn turn_to(&mut self, section: NebulaSettingsSection, fx: &mut Fx)
        ensures
            old(self).turned(*final(self), section),
            *final(fx) == old(self).turned_fx(section, *old(fx)),
    {
        self.close_shell_picker(fx);
        self.close_font_picker(fx);
        let ghost closed = *self;
        if self.page.turn_to(section) {
            fx.mark();
        }
        proof {
            let before = SettingsUi {
                page: (PageState {
                    section: old(self).page.section,
                    scroll: old(self).page.scroll,
                    ..self.page
                }),
                ..*self
            };
            assert(before == closed);
        }
    }

    /// `now` and `fx_now` are this page and its requests once `dropdown` was closed, where
    /// it was the open list.
    pub open spec fn picker_closed(
        self,
        now: SettingsUi,
        dropdown: SettingsDropdown,
        fx: Fx,
        fx_now: Fx,
    ) -> bool {
        &&& self.page.dropdown == Some(dropdown) ==> self.dropdown_closed(now) && fx_now
            == self.closed_fx(fx)
        &&& self.page.dropdown != Some(dropdown) ==> now == self && fx_now == fx
    }

    pub fn close_shell_picker(&mut self, fx: &mut Fx)
        ensures
            old(self).picker_closed(*final(self), SettingsDropdown::Shell, *old(fx), *final(fx)),
    {
        if let Some(SettingsDropdown::Shell) = self.page.dropdown {
            self.close_settings_dropdown(fx);
        }
    }

    pub fn close_font_picker(&mut self, fx: &mut Fx)
        ensures
            old(self).picker_closed(*final(self), SettingsDropdown::Font, *old(fx), *final(fx)),
    {
        if let Some(SettingsDropdown::Font) = self.page.dropdown {
            self.close_settings_dropdown(fx);
        }
    }

    /// Opens or closes the color list, the field filled with the color in use.
    pub fn open_background_color_picker(
        &mut self,
        terminal_bg: Rgb,
        theme: &ThemeState,
        fx: &mut Fx,
    )
        ensures
            final(self).color.hex@ == hex_text(
                match theme.background {
                    Some(c) => c,
                    None => terminal_bg,
                },
            ),
            (SettingsUi {
                color: ColorState {
                    hex: final(self).color.hex,
                    hex_active: false,
                    ..old(self).color
                },
                ..*old(self)
            }).dropdown_toggled(*final(self), SettingsDropdown::BackgroundColor),
            *final(fx) == old(fx).marked(),
    {
        let current: Rgb = match theme.background {
            Some(c) => c,
            None => terminal_bg,
        };
        self.color.set_hex(current);
        self.toggle_settings_dropdown(SettingsDropdown::BackgroundColor, fx);
    }

    /// Takes a swatch as the background color and closes the list; a swatch that does
    /// not exist only closes it.
    pub fn set_background_color_option(
        &mut self,
        index: usize,
        theme: &mut ThemeState,
        fx: &mut Fx,
    )
        ensures
            ({
                let known = index < old(self).color.swatches@.len();
                &&& known ==> {
                    &&& (SettingsUi {
                        color: ColorState { palette_index: index, ..old(self).color },
                        ..*old(self)
                    }).dropdown_closed(*final(self))
                    &&& *final(theme) == (ThemeState {
                        background: Some(old(self).color.swatches@[index as int]),
                        ..*old(theme)
                    })
                    &&& *final(fx) == old(self).closed_fx(old(fx).saved()).marked()
                }
                &&& !known ==> {
                    &&& old(self).dropdown_closed(*final(self))
                    &&& *final(theme) == *old(theme)
                    &&& *final(fx) == old(self).closed_fx(*old(fx)).marked()
                }
            }),
    {
        if index < self.color.swatches.len() {
            theme.background = Some(self.color.swatches[index]);
            self.color.palette_index = index;
            fx.save();
        }
        self.close_settings_dropdown(fx);
        fx.mark();
    }

    /// Takes over the color that the field was read as and closes the list. A text that
    /// is no color leaves everything as it is.
    pub fn bg_hex_commit(
        &mut self,
        parsed: Option<Rgb>,
        theme: &mut ThemeState,
        fx: &mut Fx,
    ) -> (r: bool)
        ensures
            r == parsed is Some,
            !r ==> *final(self) == *old(self) && *final(theme) == *old(theme) && *final(fx)
                == *old(fx),
            r ==> {
                &&& old(self).dropdown_closed(*final(self))
                &&& *final(theme) == (ThemeState { background: parsed, ..*old(theme) })
                &&& *final(fx) == old(self).closed_fx(old(fx).saved()).marked()
            },
    {
        match parsed {
            Some(c) => {
                theme.background = Some(c);
                fx.save();
                self.close_settings_dropdown(fx);
                fx.mark();
                true
            },
            None => false,
        }
    }
}

/// The value of a hexadecimal digit.
pub open spec fn hex_value(c: char) -> int {
    if '0' <= c <= '9' {
        c as int - '0' as int
    } else if 'a' <= c <= 'f' {
        c as int - 'a' as int + 10
    } else {
        c as int - 'A' as int + 10
    }
}

/// The text of a color is a hash sign and two digits for each part of it, from which the
/// color can be read back.
pub proof fn color_text_reads_back(c: Rgb)
    ensures
        ({
            let t = hex_text(c);
            &&& t.len() == 7 && t[0] == '#'
            &&& forall|i: int| 1 <= i < 7 ==> is_hex_digit(#[trigger] t[i])
            &&& 16 * hex_value(t[1]) + hex_value(t[2]) == c.r
            &&& 16 * hex_value(t[3]) + hex_value(t[4]) == c.g
            &&& 16 * hex_value(t[5]) + hex_value(t[6]) == c.b
        }),
{
    assert forall|v: int| 0 <= v < 16 implies hex_value(#[trigger] hex_digit(v)) == v
        && is_hex_digit(hex_digit(v)) by {}
    let t = hex_text(c);
    assert(t[1] == hex_digit(c.r as int / 16) && t[2] == hex_digit(c.r as int % 16));
    assert(t[3] == hex_digit(c.g as int / 16) && t[4] == hex_digit(c.g as int % 16));
    assert(t[5] == hex_digit(c.b as int / 16) && t[6] == hex_digit(c.b as int % 16));
}

/// Exactly the digits and the letters up to F are hexadecimal digits, and their value is
/// below sixteen.
pub proof fn hex_digits_have_a_value(c: char)
    ensures
        is_hex_digit(c) ==> 0 <= hex_value(c) < 16,
        '0' <= c <= '9' || 'A' <= c <= 'F' || 'a' <= c <= 'f' <==> is_hex_digit(c),
{
}

/// A list that is opened is the one that is open, and toggled again it closes. Toggling
/// touches nothing but the list, and the font list starts at its top.
pub proof fn toggled_list_opens_and_closes(
    s: SettingsUi,
    mid: SettingsUi,
    now: SettingsUi,
    d: SettingsDropdown,
)
    requires
        s.dropdown_toggled(mid, d),
        mid.dropdown_toggled(now, d),
    ensures
        s.page.dropdown != Some(d) ==> mid.page.dropdown == Some(d) && now.page.dropdown is None,
        s.page.dropdown == Some(d) ==> mid.page.dropdown is None && now.page.dropdown == Some(d),
        mid.page.section == s.page.section && mid.page.scroll == s.page.scroll && mid.page.open
            == s.page.open && mid.color == s.color,
        mid.font.family == s.font.family && mid.font.families == s.font.families && mid.font.query
            == s.font.query,
        d is Font && s.page.dropdown != Some(d) ==> mid.font.popup_scroll == 0
            && mid.font.notice is None,
        !(d is Font) ==> mid.font == s.font,
{
}

/// A closed list is gone with what was typed into it; a page without a list stays.
pub proof fn closed_list_ends_its_search(s: SettingsUi, now: SettingsUi)
    requires
        s.dropdown_closed(now),
    ensures
        now.page.dropdown is None,
        s.page.dropdown is None ==> now == s,
        s.page.dropdown is Some ==> !now.color.hex_active && now.font.query.text@.len() == 0
            && now.font.popup_scroll == 0,
        now.page.section == s.page.section && now.page.scroll == s.page.scroll && now.page.open
            == s.page.open,
        now.font.family == s.font.family && now.font.families == s.font.families,
{
}

/// The settings open at their top, take the place of the terminal, and give it back with
/// nothing of them held, hovered or listed.
pub proof fn settings_page_opens_and_closes(s: SettingsUi)
    ensures
        s.opened().page.open && s.opened().page.special_tab,
        s.opened().page.scroll == (Px { bits: 0 }),
        s.opened().page.section == s.page.section,
        s.opened().font == s.font && s.opened().color == s.color,
        !s.closed().page.open && s.closed().page.dropdown is None && s.closed().page.text_drag
            is None && s.closed().page.settings_hover == 0 && s.closed().page.settings_pressed == 0,
        s.closed().page.section == s.page.section && s.closed().page.scroll == s.page.scroll,
        s.closed().font == s.font && s.closed().color == s.color,
        s.specially_shown().page.special_tab && !s.specially_shown().page.message_close
            && s.specially_shown().page.open == s.page.open,
        !s.specially_left().page.special_tab && !s.specially_left().page.open,
        s.picker_open() <==> s.page.dropdown == Some(SettingsDropdown::Shell) || s.page.dropdown
            == Some(SettingsDropdown::Font),
{
}

/// Turning to a section shows it from its top, and closes the lists of the one before; the
/// same section stays where it is.
pub proof fn turned_page_shows_the_section(
    s: SettingsUi,
    now: SettingsUi,
    section: NebulaSettingsSection,
)
    requires
        s.turned(now, section),
    ensures
        now.page.section == section,
        s.page.section != section ==> now.page.scroll == (Px { bits: 0 }),
        s.page.section == section ==> now.page.scroll == s.page.scroll,
        s.picker_open() ==> now.page.dropdown is None,
        !s.picker_open() ==> now.page.dropdown == s.page.dropdown && now.font == s.font,
        now.page.open == s.page.open,
{
}

/// A color is picked by its place among the swatches, and walking through them comes back to
/// the first behind the last.
pub proof fn swatches_are_walked_in_a_circle(c: &mut ColorState, theme: &mut ThemeState, fx: &mut Fx)
    requires
        call_ensures(ColorState::cycle_background_color, (c, theme, fx), ()),
        0 < old(c).swatches@.len() <= usize::MAX,
        old(c).palette_index < old(c).swatches@.len(),
    ensures
        final(c).palette_index < old(c).swatches@.len(),
        old(c).palette_index + 1 < old(c).swatches@.len() ==> final(c).palette_index
            == old(c).palette_index + 1,
        old(c).palette_index + 1 == old(c).swatches@.len() ==> final(c).palette_index == 0,
        final(theme).background == Some(old(c).swatches@[final(c).palette_index as int]),
        final(theme).theme == old(theme).theme,
        final(c).swatches == old(c).swatches && final(fx).persist,
{
    let n = old(c).swatches@.len() as int;
    let next = old(c).palette_index + 1;
    if next == n {
        assert(next % n == 0) by {
            vstd::arithmetic::div_mod::lemma_mod_self_0(n);
        }
    } else {
        assert(next % n == next) by {
            vstd::arithmetic::div_mod::lemma_small_mod(next as nat, n as nat);
        }
    }
}

/// A swatch that is clicked is the background and its list closes; a place without a swatch
/// changes no color.
pub proof fn clicked_swatch_is_the_background(
    s: &mut SettingsUi,
    index: usize,
    theme: &mut ThemeState,
    fx: &mut Fx,
)
    requires
        call_ensures(SettingsUi::set_background_color_option, (s, index, theme, fx), ()),
    ensures
        index < old(s).color.swatches@.len() ==> final(theme).background == Some(
            old(s).color.swatches@[index as int],
        ) && final(fx).persist,
        index >= old(s).color.swatches@.len() ==> *final(theme) == *old(theme),
        final(s).page.dropdown is None,
        final(theme).theme == old(theme).theme,
{
}

/// A color that is dragged in the picker is the background at once and shown as text; it is
/// written down when it is let go. Without a drag nothing changes.
pub proof fn dragged_color_is_the_background(
    c: &mut ColorState,
    color: Rgb,
    theme: &mut ThemeState,
    fx: &mut Fx,
    r: bool,
    d: &mut ColorState,
    fx2: &mut Fx,
    q: bool,
)
    requires
        call_ensures(ColorState::update_bg_picker_drag, (c, color, theme, fx), r),
        call_ensures(ColorState::finish_bg_picker_drag, (d, fx2), q),
    ensures
        r <==> old(c).picker_drag,
        r ==> final(theme).background == Some(color) && final(c).hex@ == hex_text(color)
            && !final(c).hex_active && final(fx).persist == old(fx).persist,
        !r ==> *final(c) == *old(c) && *final(theme) == *old(theme),
        final(c).picker_drag == old(c).picker_drag,
        q <==> old(d).picker_drag,
        q ==> final(fx2).persist,
        !final(d).picker_drag && final(d).hex == old(d).hex,
{
}

/// The field for a color takes hexadecimal digits and the hash sign, seven of them at most,
/// at its end; erasing takes the last.
pub proof fn color_field_takes_digits(
    c: &mut ColorState,
    ch: char,
    fx: &mut Fx,
    d: &mut ColorState,
    fx2: &mut Fx,
)
    requires
        call_ensures(ColorState::bg_hex_push, (c, ch, fx), ()),
        call_ensures(ColorState::bg_hex_backspace, (d, fx2), ()),
    ensures
        (ch == '#' || is_hex_digit(ch)) && old(c).hex@.len() < 7 ==> final(c).hex@ == old(c).hex@
            + seq![ch],
        !(ch == '#' || is_hex_digit(ch)) || old(c).hex@.len() >= 7 ==> *final(c) == *old(c),
        old(c).hex@.len() <= 7 ==> final(c).hex@.len() <= 7,
        old(d).hex@.len() > 0 ==> final(d).hex@.len() == old(d).hex@.len() - 1 && final(d).hex@
            == old(d).hex@.take(old(d).hex@.len() - 1),
        old(d).hex@.len() == 0 ==> *final(d) == *old(d),
{
    assert(old(c).hex@.push(ch) =~= old(c).hex@ + seq![ch]);
    if old(d).hex@.len() > 0 {
        assert(old(d).hex@.drop_last() =~= old(d).hex@.take(old(d).hex@.len() - 1));
    }
}

/// A color that can be read is the background; one that cannot changes nothing.
pub proof fn read_color_is_the_background(
    s: &mut SettingsUi,
    parsed: Option<Rgb>,
    theme: &mut ThemeState,
    fx: &mut Fx,
    r: bool,
)
    requires
        call_ensures(SettingsUi::bg_hex_commit, (s, parsed, theme, fx), r),
    ensures
        r <==> parsed is Some,
        r ==> final(theme).background == parsed && final(s).page.dropdown is None,
        !r ==> *final(s) == *old(s) && *final(theme) == *old(theme),
        final(theme).theme == old(theme).theme,
{
}

/// The picker opens with the text of the background, or of the terminal where none is set.
pub proof fn picker_opens_with_the_background(
    s: &mut SettingsUi,
    terminal_bg: Rgb,
    theme: ThemeState,
    fx: &mut Fx,
)
    requires
        call_ensures(SettingsUi::open_background_color_picker, (s, terminal_bg, &theme, fx), ()),
    ensures
        theme.background matches Some(c) ==> final(s).color.hex@ == hex_text(c),
        theme.background is None ==> final(s).color.hex@ == hex_text(terminal_bg),
        !final(s).color.hex_active,
        old(s).page.dropdown != Some(SettingsDropdown::BackgroundColor) ==> final(s).page.dropdown
            == Some(SettingsDropdown::BackgroundColor),
{
}

/// The close button of a message is drawn over a terminal alone, and stronger under the
/// pointer.
pub proof fn close_button_is_drawn_over_terminals(p: PageState, r: Option<u8>)
    requires
        call_ensures(PageState::draw_message_close, (&p,), r),
    ensures
        r is Some <==> p.message_close && !p.special_tab,
        r == Some(64u8) <==> p.message_close && !p.special_tab && p.message_close_hover,
        r == Some(28u8) <==> p.message_close && !p.special_tab && !p.message_close_hover,
{
}

/// The page scrolls while it is open, hovering and pressing are remembered, and only a
/// change is drawn.
pub proof fn page_remembers_the_pointer(
    p: &mut PageState,
    next: Px,
    differs: bool,
    fx: &mut Fx,
    q: &mut PageState,
    chrome: u32,
    hover: u32,
    fx2: &mut Fx,
    s: &mut PageState,
    hit: u32,
    fx3: &mut Fx,
)
    requires
        call_ensures(PageState::settings_scroll_by, (p, next, differs, fx), ()),
        call_ensures(PageState::set_chrome_hover, (q, chrome, hover, fx2), ()),
        call_ensures(PageState::set_settings_pressed, (s, hit, fx3), ()),
    ensures
        old(p).open && differs ==> final(p).scroll == next && final(fx).redraw,
        !old(p).open || !differs ==> *final(p) == *old(p) && *final(fx) == *old(fx),
        final(p).section == old(p).section && final(p).open == old(p).open,
        final(q).chrome_hover == chrome && final(q).settings_hover == hover,
        final(q).settings_pressed == old(q).settings_pressed && final(q).scroll == old(q).scroll,
        final(s).settings_pressed == hit && final(s).settings_hover == old(s).settings_hover,
        old(s).settings_pressed == hit ==> *final(fx3) == *old(fx3),
        old(s).settings_pressed != hit ==> final(fx3).redraw,
{
}

} // verus!
