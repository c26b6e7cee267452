//! What a change of the window asks the surrounding program to do.
use crate::theme::NebulaTheme;
use crate::update::{DisplayUpdate, FontRequest};
use vstd::prelude::*;

verus! {

/// Work outside the window state that a change of settings asks for. `recolor` asks for the
/// configured colors anew, in the form that a theme gives them, and `update_bell` for the
/// bell of a new configuration.
#[derive(Clone, Copy, Debug, PartialEq, Eq, Structural)]
pub struct Requests {
    pub set_blur: Option<bool>,
    pub set_tray: Option<bool>,
    pub reset_glyphs: bool,
    pub wide_bold_regular: Option<bool>,
    pub invalidate_image: bool,
    pub refresh_transparency: bool,
    pub set_opaque: bool,
    pub set_language: bool,
    pub refresh_ime: bool,
    pub probe_system_proxy: bool,
    pub rebuild_fonts: bool,
    pub detect_shells: bool,
    pub recolor: Option<NebulaTheme>,
    pub update_bell: bool,
}

impl Requests {
    /// Nothing is asked for.
    pub open spec fn none() -> Requests {
        Requests {
            set_blur: None,
            set_tray: None,
            reset_glyphs: false,
            wide_bold_regular: None,
            invalidate_image: false,
            refresh_transparency: false,
            set_opaque: false,
            set_language: false,
            refresh_ime: false,
            probe_system_proxy: false,
            rebuild_fonts: false,
            detect_shells: false,
            recolor: None,
            update_bell: false,
        }
    }

    /// A value that asks for nothing.
    pub fn nothing() -> (r: Requests)
        ensures
            r == Requests::none(),
    {
        Requests {
            set_blur: None,
            set_tray: None,
            reset_glyphs: false,
            wide_bold_regular: None,
            invalidate_image: false,
            refresh_transparency: false,
            set_opaque: false,
            set_language: false,
            refresh_ime: false,
            probe_system_proxy: false,
            rebuild_fonts: false,
            detect_shells: false,
            recolor: None,
            update_bell: false,
        }
    }
}

/// Everything that a window asks for: the pending update, a new frame, writing the
/// settings, putting the shown host list together again, and further requests.
/// `window_size` is the size that a new layout of the grid starts from.
#[derive(Debug)]
pub struct Fx {
    pub update: DisplayUpdate,
    pub redraw: bool,
    pub persist: bool,
    pub merge_hosts: bool,
    pub requests: Requests,
    pub window_size: (u32, u32),
}

impl Fx {
    /// With a change recorded.
    pub open spec fn marked(self) -> Fx {
        Fx { update: self.update.marked(), ..self }
    }

    /// With a frame asked for.
    pub open spec fn redrawn(self) -> Fx {
        Fx { redraw: true, ..self }
    }

    /// With a change recorded and a frame asked for.
    pub open spec fn touched(self) -> Fx {
        Fx { update: self.update.marked(), redraw: true, ..self }
    }

    /// With the settings waiting to be written.
    pub open spec fn saved(self) -> Fx {
        Fx { persist: true, ..self }
    }

    /// With the shown host list waiting to be put together.
    pub open spec fn merging(self) -> Fx {
        Fx { merge_hosts: true, ..self }
    }

    /// With the current size queued, which lays the grid out again.
    pub open spec fn reflowed(self) -> Fx {
        Fx {
            update: DisplayUpdate { dimensions: Some(self.window_size), ..self.update }.marked(),
            ..self
        }
    }

    /// With a font queued.
    pub open spec fn font_queued(self, font: FontRequest) -> Fx {
        Fx { update: DisplayUpdate { font: Some(font), ..self.update }.marked(), ..self }
    }

    /// With the terminal colors stale.
    pub open spec fn colors_stale(self) -> Fx {
        Fx { update: DisplayUpdate { terminal_colors_dirty: true, ..self.update }.marked(), ..self }
    }

    /// With other requests.
    pub open spec fn asking(self, requests: Requests) -> Fx {
        Fx { requests, ..self }
    }

    /// With the input method asked to follow the caret.
    pub open spec fn following(self) -> Fx {
        Fx { requests: Requests { refresh_ime: true, ..self.requests }, ..self }
    }

    pub fn follow_caret(&mut self)
        ensures
            *final(self) == old(self).following(),
    {
        self.requests.refresh_ime = true;
    }

    pub fn mark(&mut self)
        ensures
            *final(self) == old(self).marked(),
    {
        self.update.mark();
    }

    pub fn ask_redraw(&mut self)
        ensures
            *final(self) == old(self).redrawn(),
    {
        self.redraw = true;
    }

    pub fn touch(&mut self)
        ensures
            *final(self) == old(self).touched(),
    {
        self.update.mark();
        self.redraw = true;
    }

    pub fn save(&mut self)
        ensures
            *final(self) == old(self).saved(),
    {
        self.persist = true;
    }

    pub fn ask_merge(&mut self)
        ensures
            *final(self) == old(self).merging(),
    {
        self.merge_hosts = true;
    }

    pub fn reflow(&mut self)
        ensures
            *final(self) == old(self).reflowed(),
    {
        let size: (u32, u32) = self.window_size;
        self.update.set_dimensions(size);
    }

    pub fn queue_font(&mut self, font: FontRequest)
        ensures
            *final(self) == old(self).font_queued(font),
    {
        self.update.set_font(font);
    }

    pub fn stale_colors(&mut self)
        ensures
            *final(self) == old(self).colors_stale(),
    {
        self.update.set_terminal_colors_dirty();
    }

    pub fn ask(&mut self, requests: Requests)
        ensures
            *final(self) == old(self).asking(requests),
    {
        self.requests = requests;
    }

    /// Nothing is asked for by a window of this size.
    pub fn none(window_size: (u32, u32)) -> (fx: Fx)
        ensures
            fx == (Fx {
                update: DisplayUpdate::nothing(),
                redraw: false,
                persist: false,
                merge_hosts: false,
                requests: Requests::none(),
                window_size,
            }),
    {
        Fx {
            update: DisplayUpdate::default(),
            redraw: false,
            persist: false,
            merge_hosts: false,
            requests: Requests::nothing(),
            window_size,
        }
    }
}

/// Asking for one thing leaves every other request as it was, and takes back none.
pub proof fn requests_add_up(fx: Fx, font: FontRequest)
    ensures
        fx.marked().update.dirty && fx.marked().redraw == fx.redraw,
        fx.redrawn().redraw && fx.redrawn().update == fx.update,
        fx.touched().update.dirty && fx.touched().redraw,
        fx.saved().persist && fx.saved().redraw == fx.redraw && fx.saved().update == fx.update,
        fx.merging().merge_hosts && fx.merging().persist == fx.persist,
        fx.reflowed().update.dirty && fx.reflowed().update.dimensions == Some(fx.window_size)
            && fx.reflowed().update.font == fx.update.font && fx.reflowed().redraw == fx.redraw,
        fx.font_queued(font).update.dirty && fx.font_queued(font).update.font == Some(font)
            && fx.font_queued(font).update.dimensions == fx.update.dimensions
            && fx.font_queued(font).persist == fx.persist,
        fx.colors_stale().update.dirty && fx.colors_stale().update.terminal_colors_dirty
            && fx.colors_stale().update.dimensions == fx.update.dimensions
            && fx.colors_stale().update.font == fx.update.font,
        fx.following().requests.refresh_ime && fx.following().requests == (Requests {
            refresh_ime: true,
            ..fx.requests
        }),
        fx.marked().update.dimensions == fx.update.dimensions && fx.marked().update.font
            == fx.update.font && fx.marked().update.cursor_dirty == fx.update.cursor_dirty
            && fx.marked().update.terminal_colors_dirty == fx.update.terminal_colors_dirty,
        fx.touched().persist == fx.persist && fx.touched().requests == fx.requests
            && fx.touched().merge_hosts == fx.merge_hosts && fx.touched().update
            == fx.marked().update,
        forall|r: Requests|
            (#[trigger] fx.asking(r)).requests == r && fx.asking(r).update == fx.update
                && fx.asking(r).redraw == fx.redraw && fx.asking(r).persist == fx.persist
                && fx.asking(r).merge_hosts == fx.merge_hosts,
{
}

/// A window that asks for nothing asks for none of these.
pub proof fn nothing_is_asked_for()
    ensures
        ({
            let r = Requests::none();
            &&& r.set_blur is None && r.set_tray is None && r.wide_bold_regular is None
            &&& r.recolor is None && !r.reset_glyphs && !r.invalidate_image
            &&& !r.refresh_transparency && !r.set_opaque && !r.set_language && !r.refresh_ime
            &&& !r.probe_system_proxy && !r.rebuild_fonts && !r.detect_shells && !r.update_bell
        }),
        DisplayUpdate::nothing().dimensions is None && DisplayUpdate::nothing().font is None
            && !DisplayUpdate::nothing().dirty && !DisplayUpdate::nothing().cursor_dirty
            && !DisplayUpdate::nothing().terminal_colors_dirty,
{
}

} // verus!
