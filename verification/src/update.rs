//! Changes that wait for the next frame, and the clock that paces frames.
use vstd::prelude::*;

verus! {

/// A font request: the family list, and the size in pixels as the bits of an `f32`,
/// which is carried and never read.
#[derive(Debug)]
pub struct FontRequest {
    pub family: String,
    pub size_bits: u32,
}

/// Changes of the display that wait to be applied.
#[derive(Debug)]
pub struct DisplayUpdate {
    pub dirty: bool,
    pub dimensions: Option<(u32, u32)>,
    pub cursor_dirty: bool,
    pub font: Option<FontRequest>,
    pub terminal_colors_dirty: bool,
}

impl Default for DisplayUpdate {
    fn default() -> (u: Self)
        ensures
            u == DisplayUpdate::nothing(),
    {
        DisplayUpdate {
            dirty: false,
            dimensions: None,
            cursor_dirty: false,
            font: None,
            terminal_colors_dirty: false,
        }
    }
}

impl DisplayUpdate {
    /// No change at all.
    pub open spec fn nothing() -> DisplayUpdate {
        DisplayUpdate {
            dirty: false,
            dimensions: None,
            cursor_dirty: false,
            font: None,
            terminal_colors_dirty: false,
        }
    }

    /// A recorded change always leaves the update marked.
    pub open spec fn wf(self) -> bool {
        self.dimensions is Some || self.cursor_dirty || self.font is Some
            || self.terminal_colors_dirty ==> self.dirty
    }

    /// This update, marked to be applied.
    pub open spec fn marked(self) -> DisplayUpdate {
        DisplayUpdate { dirty: true, ..self }
    }

    /// Marks the update to be applied.
    pub fn mark(&mut self)
        ensures
            *final(self) == old(self).marked(),
    {
        self.dirty = true;
    }

    pub fn dimensions(&self) -> (d: Option<(u32, u32)>)
        ensures
            d == self.dimensions,
    {
        self.dimensions
    }

    pub fn font(&self) -> (f: Option<&FontRequest>)
        ensures
            f is Some <==> self.font is Some,
            f matches Some(x) ==> *x == self.font->0,
    {
        self.font.as_ref()
    }

    pub fn cursor_dirty(&self) -> (b: bool)
        ensures
            b == self.cursor_dirty,
    {
        self.cursor_dirty
    }

    pub fn terminal_colors_dirty(&self) -> (b: bool)
        ensures
            b == self.terminal_colors_dirty,
    {
        self.terminal_colors_dirty
    }

    pub fn set_dimensions(&mut self, dimensions: (u32, u32))
        ensures
            *final(self) == (DisplayUpdate { dimensions: Some(dimensions), ..*old(self) }).marked(),
            final(self).wf(),
    {
        self.dimensions = Some(dimensions);
        self.dirty = true;
    }

    pub fn set_font(&mut self, font: FontRequest)
        ensures
            *final(self) == (DisplayUpdate { font: Some(font), ..*old(self) }).marked(),
            final(self).wf(),
    {
        self.font = Some(font);
        self.dirty = true;
    }

    pub fn set_cursor_dirty(&mut self)
        ensures
            *final(self) == (DisplayUpdate { cursor_dirty: true, ..*old(self) }).marked(),
            final(self).wf(),
    {
        self.cursor_dirty = true;
        self.dirty = true;
    }

    pub fn set_terminal_colors_dirty(&mut self)
        ensures
            *final(self) == (DisplayUpdate { terminal_colors_dirty: true, ..*old(self) }).marked(),
            final(self).wf(),
    {
        self.terminal_colors_dirty = true;
        self.dirty = true;
    }
}

/// Work for the renderer that has to wait until right before drawing.
#[derive(Clone, Copy, Debug, PartialEq, Eq, Structural)]
pub struct RendererUpdate {
    pub resize: bool,
    pub clear_font_cache: bool,
}

/// The terminal grid in cells.
#[derive(Clone, Copy, Debug, PartialEq, Eq, Structural)]
pub struct Viewport {
    pub columns: usize,
    pub screen_lines: usize,
}

/// Lines below the grid that the message bar and the search line take.
pub fn reserved_lines(message_bar_lines: usize, search_active: bool) -> (n: usize)
    requires
        message_bar_lines < usize::MAX,
    ensures
        n == message_bar_lines + (if search_active {
            1int
        } else {
            0int
        }),
{
    if search_active {
        message_bar_lines + 1
    } else {
        message_bar_lines
    }
}

/// Sync points of the frame clock, in nanoseconds of a monotonic clock.
#[derive(Clone, Copy, Debug, PartialEq, Eq, Structural)]
pub struct FrameTimer {
    pub base: u64,
    pub last_synced_timestamp: u64,
    pub refresh_interval: u64,
}

impl FrameTimer {
    /// The last sync point is not before the base.
    pub open spec fn wf(self) -> bool {
        self.base <= self.last_synced_timestamp
    }

    /// The last sync point lies on a tick counted from the base, in whole microseconds.
    pub open spec fn on_tick(self) -> bool {
        self.refresh_interval >= 1000 ==> ((self.last_synced_timestamp - self.base) / 1000) % (
        self.refresh_interval as int / 1000) == 0
    }

    pub fn new(now: u64) -> (t: Self)
        ensures
            t == (FrameTimer { base: now, last_synced_timestamp: now, refresh_interval: 0 }),
            t.wf(),
    {
        FrameTimer { base: now, last_synced_timestamp: now, refresh_interval: 0 }
    }

    /// The clock and the delay after a frame at `now`.
    pub open spec fn next(self, now: u64, refresh_interval: u64) -> (FrameTimer, u64) {
        if self.refresh_interval != refresh_interval {
            (
                FrameTimer { base: now, last_synced_timestamp: now, refresh_interval },
                refresh_interval,
            )
        } else if self.last_synced_timestamp + refresh_interval < now {
            let late_micros = ((now - self.base) / 1000) % (refresh_interval as int / 1000);
            (
                FrameTimer { last_synced_timestamp: (now - late_micros * 1000) as u64, ..self },
                0,
            )
        } else {
            let next_frame = self.last_synced_timestamp + refresh_interval;
            (
                FrameTimer { last_synced_timestamp: next_frame as u64, ..self },
                (next_frame - now) as u64,
            )
        }
    }

    /// The delay until the next frame: nothing where a tick was missed, else up to the
    /// next tick. A new refresh rate starts the clock anew.
    pub fn compute_timeout(&mut self, now: u64, refresh_interval: u64) -> (delay: u64)
        requires
            old(self).wf(),
            old(self).base <= now,
            old(self).last_synced_timestamp + refresh_interval <= u64::MAX,
            old(self).refresh_interval == refresh_interval && old(self).last_synced_timestamp
                + refresh_interval < now ==> refresh_interval >= 1000,
        ensures
            (*final(self), delay) == old(self).next(now, refresh_interval),
            final(self).wf(),
    {
        if self.refresh_interval != refresh_interval {
            self.base = now;
            self.last_synced_timestamp = now;
            self.refresh_interval = refresh_interval;
            return refresh_interval;
        }
        let next_frame: u64 = self.last_synced_timestamp + refresh_interval;
        if next_frame < now {
            let elapsed_micros: u64 = (now - self.base) / 1000;
            let refresh_micros: u64 = refresh_interval / 1000;
            let late: u64 = elapsed_micros % refresh_micros;
            proof {
                vstd::arithmetic::div_mod::lemma_mod_decreases(
                    elapsed_micros as nat,
                    refresh_micros as nat,
                );
            }
            self.last_synced_timestamp = now - late * 1000;
            0
        } else {
            self.last_synced_timestamp = next_frame;
            next_frame - now
        }
    }
}

/// A frame that comes at or after the last sync point never waits longer than one
/// refresh interval.
pub proof fn frame_delay_is_bounded(t: FrameTimer, now: u64, refresh_interval: u64)
    requires
        t.last_synced_timestamp <= now,
    ensures
        t.next(now, refresh_interval).1 <= refresh_interval,
{
}

/// Every sync point stays on the ticks that the base started, however late frames are.
pub proof fn frame_clock_keeps_phase(t: FrameTimer, now: u64, refresh_interval: u64)
    requires
        t.wf(),
        t.on_tick(),
        t.base <= now,
        t.last_synced_timestamp + refresh_interval <= u64::MAX,
        refresh_interval % 1000 == 0,
    ensures
        t.next(now, refresh_interval).0.on_tick(),
{
    if t.refresh_interval == refresh_interval && refresh_interval >= 1000 {
        let r = refresh_interval as int / 1000;
        let d = (t.last_synced_timestamp - t.base) as int;
        if t.last_synced_timestamp + refresh_interval < now {
            let e = (now - t.base) as int / 1000;
            let late = e % r;
            vstd::arithmetic::div_mod::lemma_mod_bound(e, r);
            vstd::arithmetic::div_mod::lemma_fundamental_div_mod(e, r);
            let rest = (now - t.base) % 1000;
            assert(late <= e) by {
                vstd::arithmetic::div_mod::lemma_mod_decreases(e as nat, r as nat);
            }
            assert(((now - late * 1000) - t.base) / 1000 == e - late);
            assert(e - late == r * (e / r));
            vstd::arithmetic::div_mod::lemma_mod_multiples_basic(e / r, r);
            assert(r * (e / r) == (e / r) * r) by (nonlinear_arith);
        } else {
            assert((d + refresh_interval) / 1000 == d / 1000 + r);
            vstd::arithmetic::div_mod::lemma_mod_add_multiples_vanish(d / 1000, r);
            assert((d / 1000 + r) % r == 0);
        }
    } else if refresh_interval >= 1000 {
        vstd::arithmetic::div_mod::lemma_small_mod(0, (refresh_interval as int / 1000) as nat);
    }
}

/// A frame in time waits up to the tick behind the last one. A late frame is not delayed,
/// and its sync point is the last tick that passed, less than an interval ago. Another
/// refresh rate starts the clock at the frame itself.
pub proof fn frames_wait_for_their_tick(t: FrameTimer, now: u64, refresh_interval: u64)
    requires
        t.wf(),
        t.base <= now,
        t.last_synced_timestamp + refresh_interval <= u64::MAX,
        refresh_interval >= 1000,
    ensures
        ({
            let (next, delay) = t.next(now, refresh_interval);
            let due = t.last_synced_timestamp + refresh_interval;
            &&& next.refresh_interval == refresh_interval
            &&& t.refresh_interval != refresh_interval ==> next.base == now
                && next.last_synced_timestamp == now && delay == refresh_interval
            &&& t.refresh_interval == refresh_interval ==> next.base == t.base
            &&& t.refresh_interval == refresh_interval && now <= due
                && due - now <= u64::MAX ==> now + delay == due && next.last_synced_timestamp == due
            &&& t.refresh_interval == refresh_interval && now > due ==> delay == 0
                && next.last_synced_timestamp <= now < next.last_synced_timestamp
                + refresh_interval
        }),
{
    if t.refresh_interval == refresh_interval && t.last_synced_timestamp + refresh_interval < now {
        let micros = refresh_interval as int / 1000;
        let past = (now - t.base) / 1000;
        let late = past % micros;
        assert(0 <= late < micros) by {
            vstd::arithmetic::div_mod::lemma_mod_bound(past, micros);
        }
        assert(late <= past) by {
            vstd::arithmetic::div_mod::lemma_mod_decreases(past as nat, micros as nat);
        }
        assert(late * 1000 <= now - t.base);
        assert(late * 1000 < refresh_interval);
    }
}

/// Every change that is recorded waits for the next frame beside the others.
pub proof fn recorded_changes_wait(
    s: &mut DisplayUpdate,
    d: (u32, u32),
    t: &mut DisplayUpdate,
    font: FontRequest,
    u: &mut DisplayUpdate,
    v: &mut DisplayUpdate,
)
    requires
        call_ensures(DisplayUpdate::set_dimensions, (s, d), ()),
        call_ensures(DisplayUpdate::set_font, (t, font), ()),
        call_ensures(DisplayUpdate::set_cursor_dirty, (u,), ()),
        call_ensures(DisplayUpdate::set_terminal_colors_dirty, (v,), ()),
    ensures
        final(s).dimensions == Some(d) && final(s).font == old(s).font && final(s).cursor_dirty
            == old(s).cursor_dirty && final(s).dirty,
        final(t).font == Some(font) && final(t).dimensions == old(t).dimensions && final(t).dirty,
        final(u).cursor_dirty && final(u).dimensions == old(u).dimensions && final(u).font
            == old(u).font && final(u).dirty,
        final(v).terminal_colors_dirty && final(v).dimensions == old(v).dimensions && final(v).font
            == old(v).font && final(v).cursor_dirty == old(v).cursor_dirty && final(v).dirty,
{
}

/// The search line takes one line below the grid, and messages take theirs.
pub proof fn lines_below_the_grid_add_up(lines: usize, n: usize, m: usize)
    requires
        call_ensures(reserved_lines, (lines, false), n),
        call_ensures(reserved_lines, (lines, true), m),
    ensures
        n == lines,
        m == n + 1,
{
}

/// A frame waits for the next tick after the last one, and a late frame does not wait.
pub proof fn next_frame_waits_for_its_tick(t: &mut FrameTimer, now: u64, interval: u64, delay: u64)
    requires
        call_ensures(FrameTimer::compute_timeout, (t, now, interval), delay),
        old(t).wf(),
        old(t).base <= now,
        old(t).last_synced_timestamp + interval <= u64::MAX,
        interval >= 1000,
    ensures
        old(t).refresh_interval == interval && now <= old(t).last_synced_timestamp + interval
            ==> now + delay == old(t).last_synced_timestamp + interval
            && final(t).last_synced_timestamp == now + delay,
        old(t).refresh_interval == interval && now > old(t).last_synced_timestamp + interval
            ==> delay == 0 && final(t).last_synced_timestamp <= now
            < final(t).last_synced_timestamp + interval,
        old(t).refresh_interval != interval ==> delay == interval && final(t).base == now
            && final(t).last_synced_timestamp == now,
        final(t).refresh_interval == interval,
{
    frames_wait_for_their_tick(*old(t), now, interval);
}

} // verus!
