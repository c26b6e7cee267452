//! The tab strip: its per-tab data, dragging tabs and renaming them.
use crate::color::{Px, Rgb};
use crate::rename::TabRename;
use crate::text::texts;
use vstd::prelude::*;

verus! {

/// A logo that a tab shows for the assistant running in it.
#[derive(Clone, Copy, Debug, PartialEq, Eq, Structural)]
pub enum AiLogo {
    Claude,
    Gemini,
    Grok,
    OpenAi,
    OpenCode,
    Pi,
}

/// A side of the terminal area that a tab can be docked to.
#[derive(Clone, Copy, Debug, PartialEq, Eq, Structural)]
pub enum SplitNav {
    Left,
    Right,
    Up,
    Down,
}

/// A press on a tab that may become a drag.
#[derive(Clone, Copy, Debug, PartialEq, Eq, Structural)]
pub struct TabDrag {
    pub source: usize,
    pub active: bool,
    pub dock: Option<SplitNav>,
}

/// What the release of a dragged tab means.
#[derive(Clone, Copy, Debug, PartialEq, Eq, Structural)]
pub enum TabDropAction {
    Click(usize),
    Reorder { from: usize, to: usize },
    Dock { source: usize, nav: SplitNav },
}

/// Everything the strip shows, one entry for each tab in every list.
#[derive(Debug)]
pub struct TabState {
    pub labels: Vec<String>,
    pub colors: Vec<Option<Rgb>>,
    pub bells: Vec<bool>,
    pub running: Vec<bool>,
    pub attention: Vec<bool>,
    pub failed: Vec<bool>,
    pub flashing: Vec<bool>,
    pub logos: Vec<Option<AiLogo>>,
    pub shells: Vec<String>,
    pub ai_fork: Vec<bool>,
    pub active: usize,
    pub reorderable: bool,
    pub drag: Option<TabDrag>,
    pub anim: Vec<Px>,
    pub rename: Option<TabRename>,
    pub rename_caret: usize,
    pub rename_select_all: bool,
}

/// `s` cut or filled up to `n` entries.
pub open spec fn fitted<T>(s: Seq<T>, n: nat, fill: T) -> Seq<T> {
    Seq::new(
        n,
        |i: int|
            if i < s.len() {
                s[i]
            } else {
                fill
            },
    )
}

impl TabState {
    /// There is a tab, every list has one entry for each, and the active tab and a
    /// grabbed one exist.
    pub open spec fn wf(self) -> bool {
        let n = self.labels@.len();
        &&& n > 0
        &&& self.colors@.len() == n
        &&& self.bells@.len() == n
        &&& self.running@.len() == n
        &&& self.attention@.len() == n
        &&& self.failed@.len() == n
        &&& self.flashing@.len() == n
        &&& self.logos@.len() == n
        &&& self.shells@.len() == n
        &&& self.ai_fork@.len() == n
        &&& self.active < n
        &&& self.drag matches Some(d) ==> d.source < n
    }
}

fn fit_to<T: Copy>(v: Vec<T>, n: usize, fill: T) -> (r: Vec<T>)
    ensures
        r@ == fitted(v@, n as nat, fill),
{
    let mut r = v;
    r.truncate(n);
    let ghost cut = r@;
    while r.len() < n
        invariant
            r@.len() <= n,
            cut.len() <= r@.len(),
            forall|i: int| 0 <= i < cut.len() ==> #[trigger] r@[i] == cut[i],
            forall|i: int| cut.len() <= i < r@.len() ==> #[trigger] r@[i] == fill,
        decreases n - r@.len(),
    {
        r.push(fill);
    }
    proof {
        assert(r@ =~= fitted(v@, n as nat, fill));
    }
    r
}

fn fit_texts(v: Vec<String>, n: usize) -> (r: Vec<String>)
    ensures
        texts(r@) == fitted(texts(v@), n as nat, Seq::<char>::empty()),
{
    let mut r = v;
    r.truncate(n);
    let ghost cut = r@;
    while r.len() < n
        invariant
            r@.len() <= n,
            cut.len() <= r@.len(),
            forall|i: int| 0 <= i < cut.len() ==> #[trigger] r@[i] == cut[i],
            forall|i: int| cut.len() <= i < r@.len() ==> #[trigger] r@[i]@ == Seq::<char>::empty(),
        decreases n - r@.len(),
    {
        r.push(String::new());
    }
    proof {
        assert(texts(r@) =~= fitted(texts(v@), n as nat, Seq::<char>::empty()));
    }
    r
}

/// The number of rows among the first `k` whose middle the pointer has passed, the
/// grabbed tab's own row left out.
pub open spec fn rows_passed(rows: Seq<(usize, bool)>, source: usize, k: int) -> nat
    decreases k,
{
    if k <= 0 {
        0
    } else if rows[k - 1].0 != source && rows[k - 1].1 {
        rows_passed(rows, source, k - 1) + 1
    } else {
        rows_passed(rows, source, k - 1)
    }
}

/// The slot that a tab dropped over these rows goes to.
pub open spec fn drop_index(source: usize, rows: Seq<(usize, bool)>, tab_count: usize) -> int {
    if rows.len() == 0 {
        source as int
    } else {
        let slot = rows[0].0 + rows_passed(rows, source, rows.len() as int);
        let last = if tab_count == 0 {
            0
        } else {
            tab_count - 1
        };
        if slot < last {
            slot
        } else {
            last
        }
    }
}

/// The tab index that a drop at the pointer gives. `visible` holds, for each row on
/// screen, its tab index and whether the pointer is below the row's middle.
pub fn tab_drop_index_from_visible_rows(
    source: usize,
    visible: &Vec<(usize, bool)>,
    tab_count: usize,
) -> (r: usize)
    ensures
        r == drop_index(source, visible@, tab_count),
{
    if visible.len() == 0 {
        return source;
    }
    let first: usize = visible[0].0;
    let mut passed: usize = 0;
    let mut i: usize = 0;
    while i < visible.len()
        invariant
            i <= visible@.len(),
            passed == rows_passed(visible@, source, i as int),
            passed <= i,
        decreases visible@.len() - i,
    {
        let row: (usize, bool) = visible[i];
        if row.0 != source && row.1 {
            passed += 1;
        }
        i += 1;
    }
    let last: usize = tab_count.saturating_sub(1);
    let slot: usize = first.saturating_add(passed);
    if slot < last {
        slot
    } else {
        last
    }
}

/// A drop always lands on an existing tab, wherever the strip is scrolled to.
pub proof fn drop_index_is_a_tab(source: usize, rows: Seq<(usize, bool)>, tab_count: usize)
    requires
        source < tab_count,
    ensures
        0 <= drop_index(source, rows, tab_count) < tab_count,
{
}

/// The rows on screen are those of consecutive tabs, and the pointer has passed the middles
/// of the first `passed` of them.
pub open spec fn passed_down_to(rows: Seq<(usize, bool)>, passed: int) -> bool {
    &&& 0 <= passed <= rows.len()
    &&& forall|i: int| 0 <= i < rows.len() ==> (#[trigger] rows[i]).0 == rows[0].0 + i
    &&& forall|i: int| 0 <= i < rows.len() ==> ((#[trigger] rows[i]).1 <==> i < passed)
}

proof fn lemma_rows_passed(rows: Seq<(usize, bool)>, source: usize, passed: int, k: int)
    requires
        passed_down_to(rows, passed),
        rows.len() > 0,
        rows[0].0 <= source,
        0 <= k <= rows.len(),
    ensures
        ({
            let seen = if k < passed {
                k
            } else {
                passed
            };
            rows_passed(rows, source, k) == (if source < rows[0].0 + seen {
                seen - 1
            } else {
                seen
            })
        }),
    decreases k,
{
    if k > 0 {
        lemma_rows_passed(rows, source, passed, k - 1);
        assert(rows[k - 1].0 == rows[0].0 + (k - 1));
        assert(rows[k - 1].1 <==> k - 1 < passed);
    }
}

/// A dropped tab lands behind exactly the tabs that the pointer has passed: those above the
/// rows on screen and those whose middle lies above the pointer. `slot` is where it lands,
/// and `moved` the tabs after that, by their old numbers.
pub proof fn dropped_tab_lands_behind_passed_ones(
    source: usize,
    rows: Seq<(usize, bool)>,
    tab_count: usize,
    passed: int,
)
    requires
        rows.len() > 0,
        passed_down_to(rows, passed),
        rows[0].0 + rows.len() <= tab_count,
        rows[0].0 <= source < tab_count,
    ensures
        ({
            let slot = drop_index(source, rows, tab_count);
            let tabs = Seq::new(tab_count as nat, |i: int| i);
            let moved = tabs.remove(source as int).insert(slot, source as int);
            &&& moved[slot] == source
            &&& forall|j: int|
                0 <= j < tab_count && j != slot ==> ((#[trigger] moved[j]) < rows[0].0 + passed
                    <==> j < slot)
        }),
{
    lemma_rows_passed(rows, source, passed, rows.len() as int);
}

/// Without a row on screen a dropped tab stays where it was, and so does one that is
/// dropped on its own row: all rows above it passed, none below it.
pub proof fn tab_dropped_in_place_stays(
    source: usize,
    rows: Seq<(usize, bool)>,
    tab_count: usize,
    passed: int,
)
    requires
        source < tab_count,
        rows.len() == 0 || (passed_down_to(rows, passed) && rows[0].0 <= source && rows[0].0
            + rows.len() <= tab_count && (rows[0].0 + passed == source || rows[0].0 + passed
            == source + 1)),
    ensures
        drop_index(source, rows, tab_count) == source,
{
    if rows.len() > 0 {
        lemma_rows_passed(rows, source, passed, rows.len() as int);
    }
}

/// How a row moves while another tab is dragged.
#[derive(Clone, Copy, Debug, PartialEq, Eq, Structural)]
pub enum TabShift {
    Stay,
    Up,
    Down,
}

/// The shift of row `index` while the tab at `source` hovers over slot `target`.
pub open spec fn row_shift(index: int, source: int, target: int) -> int {
    if source < target && source < index <= target {
        -1
    } else if source > target && target <= index < source {
        1
    } else {
        0
    }
}

/// Which way a row makes room for a dragged tab.
pub fn tab_make_way(index: usize, source: usize, target: usize) -> (s: TabShift)
    ensures
        s == TabShift::Up <==> row_shift(index as int, source as int, target as int) == -1,
        s == TabShift::Down <==> row_shift(index as int, source as int, target as int) == 1,
{
    if source < target && index > source && index <= target {
        TabShift::Up
    } else if source > target && index >= target && index < source {
        TabShift::Down
    } else {
        TabShift::Stay
    }
}

/// While a tab is dragged, every other row is drawn in the slot that it has after the
/// drop: nothing jumps when the button is released.
pub proof fn make_way_matches_drop<T>(tabs: Seq<T>, source: int, target: int, index: int)
    requires
        0 <= source < tabs.len(),
        0 <= target < tabs.len(),
        0 <= index < tabs.len(),
        index != source,
    ensures
        tabs.remove(source).insert(target, tabs[source])[index + row_shift(index, source, target)]
            == tabs[index],
{
}

impl TabState {
    fn replace(
        &mut self,
        labels: Vec<String>,
        colors: Vec<Option<Rgb>>,
        bells: Vec<bool>,
        running: Vec<bool>,
        attention: Vec<bool>,
        failed: Vec<bool>,
        flashing: Vec<bool>,
        logos: Vec<Option<AiLogo>>,
        shells: Vec<String>,
        ai_fork: Vec<bool>,
        active: usize,
        reorderable: bool,
        drag: Option<TabDrag>,
    )
        ensures
            *final(self) == (TabState {
                labels,
                colors,
                bells,
                running,
                attention,
                failed,
                flashing,
                logos,
                shells,
                ai_fork,
                active,
                reorderable,
                drag,
                ..*old(self)
            }),
    {
        self.labels = labels;
        self.colors = colors;
        self.bells = bells;
        self.running = running;
        self.attention = attention;
        self.failed = failed;
        self.flashing = flashing;
        self.logos = logos;
        self.shells = shells;
        self.ai_fork = ai_fork;
        self.active = active;
        self.reorderable = reorderable;
        self.drag = drag;
    }

    fn move_anim(&mut self, from: usize, to: usize)
        ensures
            *final(self) == (TabState { anim: final(self).anim, ..*old(self) }),
            final(self).anim@ == (if from < old(self).anim@.len() && to < old(self).anim@.len() {
                old(self).anim@.remove(from as int).insert(to as int, old(self).anim@[from as int])
            } else {
                old(self).anim@
            }),
    {
        if from < self.anim.len() && to < self.anim.len() {
            let v: Px = self.anim.remove(from);
            self.anim.insert(to, v);
        }
    }
}

impl TabState {
    /// Takes over the tabs. Every list is cut or filled up to the number of labels, the
    /// active tab is kept within them, and a drag of a tab that is gone ends.
    pub fn set_chrome_tabs(
        &mut self,
        labels: Vec<String>,
        colors: Vec<Option<Rgb>>,
        dots: Vec<bool>,
        running: Vec<bool>,
        attention: Vec<bool>,
        failed: Vec<bool>,
        flashing: Vec<bool>,
        logos: Vec<Option<AiLogo>>,
        shells: Vec<String>,
        ai_fork: Vec<bool>,
        active: usize,
        reorderable: bool,
    )
        ensures
            final(self).wf(),
            final(self).anim == old(self).anim,
            final(self).rename == old(self).rename,
            final(self).rename_caret == old(self).rename_caret,
            final(self).rename_select_all == old(self).rename_select_all,
            ({
                let t = *final(self);
                let n = t.labels@.len();
                &&& texts(t.labels@) == (if labels@.len() == 0 {
                    seq!["."@]
                } else {
                    texts(labels@)
                })
                &&& t.colors@ == fitted(colors@, n, None)
                &&& t.bells@ == fitted(dots@, n, false)
                &&& t.running@ == fitted(running@, n, false)
                &&& t.attention@ == fitted(attention@, n, false)
                &&& t.failed@ == fitted(failed@, n, false)
                &&& t.flashing@ == fitted(flashing@, n, false)
                &&& t.logos@ == fitted(logos@, n, None)
                &&& texts(t.shells@) == fitted(texts(shells@), n, Seq::<char>::empty())
                &&& t.ai_fork@ == fitted(ai_fork@, n, false)
                &&& t.active == (if active < n {
                    active as int
                } else {
                    n - 1
                })
                &&& t.reorderable == reorderable
                &&& t.drag == (match old(self).drag {
                    Some(d) if d.source < n => Some(d),
                    _ => None,
                })
            }),
    {
        let labels: Vec<String> = if labels.is_empty() {
            let mut one: Vec<String> = Vec::new();
            one.push(".".to_owned());
            proof {
                assert(texts(one@) =~= seq!["."@]);
            }
            one
        } else {
            labels
        };
        let n: usize = labels.len();
        let drag: Option<TabDrag> = match self.drag {
            Some(d) => if d.source < n {
                Some(d)
            } else {
                None
            },
            None => None,
        };
        let shells = fit_texts(shells, n);
        proof {
            assert(texts(shells@).len() == n);
        }
        self.replace(
            labels,
            fit_to(colors, n, None),
            fit_to(dots, n, false),
            fit_to(running, n, false),
            fit_to(attention, n, false),
            fit_to(failed, n, false),
            fit_to(flashing, n, false),
            fit_to(logos, n, None),
            shells,
            fit_to(ai_fork, n, false),
            if active < n {
                active
            } else {
                n - 1
            },
            reorderable,
            drag,
        );
    }

    /// Whether a tab shows its check mark right now.
    pub fn any_tab_flashing(&self) -> (r: bool)
        ensures
            r == self.flashing@.contains(true),
    {
        any_true(&self.flashing)
    }

    /// Whether a tab shows the running spinner.
    pub fn any_tab_running(&self) -> (r: bool)
        ensures
            r == self.running@.contains(true),
    {
        any_true(&self.running)
    }

    /// Arms a drag from a press on a tab. What it means is decided on release.
    pub fn arm_tab_drag(&mut self, source: usize)
        ensures
            *final(self) == (TabState {
                drag: Some(TabDrag { source, active: false, dock: None }),
                ..*old(self)
            }),
    {
        self.drag = Some(TabDrag { source, active: false, dock: None });
    }

    pub fn tab_drag_armed(&self) -> (r: bool)
        ensures
            r == self.drag is Some,
    {
        self.drag.is_some()
    }

    /// Feeds a pointer move into an armed drag: `past_threshold` tells that the pointer
    /// has left the neighbourhood of the press, `dock` the side of the terminal area it
    /// is over. The result tells whether the tab is being dragged.
    pub fn update_tab_drag(&mut self, past_threshold: bool, dock: Option<SplitNav>) -> (r: bool)
        ensures
            *final(self) == (TabState { drag: final(self).drag, ..*old(self) }),
            final(self).drag == (match old(self).drag {
                Some(d) => {
                    let active = d.active || past_threshold;
                    Some(
                        TabDrag {
                            active,
                            dock: if active {
                                dock
                            } else {
                                d.dock
                            },
                            ..d
                        },
                    )
                },
                None => None,
            }),
            r == (final(self).drag matches Some(d) && d.active),
    {
        match self.drag {
            Some(d) => {
                let mut d: TabDrag = d;
                if !d.active && past_threshold {
                    d.active = true;
                }
                if d.active {
                    d.dock = dock;
                }
                self.drag = Some(d);
                d.active
            },
            None => false,
        }
    }

    /// Ends a drag. A press that never moved is a click; a release over the terminal
    /// area docks; a release in the strip moves the tab where tabs can be moved. The
    /// drawn positions move along, so that the pills ease into place.
    pub fn end_tab_drag(&mut self, visible: &Vec<(usize, bool)>) -> (r: Option<TabDropAction>)
        ensures
            *final(self) == (TabState {
                drag: None,
                anim: final(self).anim,
                ..*old(self)
            }),
            ({
                let t = *old(self);
                let moved = t.drag matches Some(d) && r == Some(
                    TabDropAction::Reorder {
                        from: d.source,
                        to: drop_index(d.source, visible@, t.labels.len()) as usize,
                    },
                );
                &&& r == (match t.drag {
                    None => None,
                    Some(d) => Some(
                        if !d.active {
                            TabDropAction::Click(d.source)
                        } else if let Some(nav) = d.dock {
                            TabDropAction::Dock { source: d.source, nav }
                        } else if !t.reorderable || t.labels@.len() < 2 {
                            TabDropAction::Click(d.source)
                        } else {
                            let to = drop_index(d.source, visible@, t.labels.len());
                            if to == d.source {
                                TabDropAction::Click(d.source)
                            } else {
                                TabDropAction::Reorder { from: d.source, to: to as usize }
                            }
                        },
                    ),
                })
                &&& final(self).anim@ == (match r {
                    Some(TabDropAction::Reorder { from, to }) if from < t.anim@.len() && to
                        < t.anim@.len() => t.anim@.remove(from as int).insert(
                        to as int,
                        t.anim@[from as int],
                    ),
                    _ => t.anim@,
                })
            }),
    {
        let drag: TabDrag = match self.drag {
            Some(d) => d,
            None => {
                return None;
            },
        };
        self.drag = None;
        if !drag.active {
            return Some(TabDropAction::Click(drag.source));
        }
        if let Some(nav) = drag.dock {
            return Some(TabDropAction::Dock { source: drag.source, nav });
        }
        if !self.reorderable || self.labels.len() < 2 {
            return Some(TabDropAction::Click(drag.source));
        }
        let target: usize = tab_drop_index_from_visible_rows(
            drag.source,
            visible,
            self.labels.len(),
        );
        if target == drag.source {
            return Some(TabDropAction::Click(drag.source));
        }
        self.move_anim(drag.source, target);
        Some(TabDropAction::Reorder { from: drag.source, to: target })
    }
}

fn any_true(v: &Vec<bool>) -> (r: bool)
    ensures
        r == v@.contains(true),
{
    let mut i: usize = 0;
    while i < v.len()
        invariant
            i <= v@.len(),
            forall|j: int| 0 <= j < i ==> !v@[j],
        decreases v@.len() - i,
    {
        if v[i] {
            return true;
        }
        i += 1;
    }
    false
}

/// The rows that the dragged tab has passed are those of other tabs that lie before it.
pub proof fn passed_rows_are_counted(rows: Seq<(usize, bool)>, source: usize, k: int)
    requires
        0 <= k <= rows.len(),
    ensures
        rows_passed(rows, source, k) == rows.take(k).filter(
            |r: (usize, bool)| r.0 != source && r.1,
        ).len(),
    decreases k,
{
    reveal(Seq::filter);
    let pred = |r: (usize, bool)| r.0 != source && r.1;
    if k > 0 {
        passed_rows_are_counted(rows, source, k - 1);
        assert(rows.take(k).drop_last() =~= rows.take(k - 1));
    }
    assert(rows_passed(rows, source, k) == rows.take(k).filter(pred).len());
}

/// A tab lands as many places behind the first shown row as it passed other rows, and never
/// behind the last tab.
pub proof fn tab_lands_as_far_as_it_passed(
    source: usize,
    rows: Seq<(usize, bool)>,
    tab_count: usize,
)
    requires
        tab_count > 0,
    ensures
        ({
            let passed = rows.filter(|r: (usize, bool)| r.0 != source && r.1).len();
            let slot = drop_index(source, rows, tab_count);
            &&& rows.len() == 0 ==> slot == source
            &&& rows.len() > 0 && rows[0].0 + passed < tab_count ==> slot == rows[0].0 + passed
            &&& rows.len() > 0 && rows[0].0 + passed >= tab_count ==> slot == tab_count - 1
        }),
{
    passed_rows_are_counted(rows, source, rows.len() as int);
    assert(rows.take(rows.len() as int) =~= rows);
}

/// A list that is fitted to the tabs keeps what it has of them, and has the filling for the
/// rest.
pub proof fn fitted_list_keeps_its_entries<T>(s: Seq<T>, n: nat, fill: T)
    ensures
        fitted(s, n, fill).len() == n,
        s.len() >= n ==> fitted(s, n, fill) == s.take(n as int),
        s.len() <= n ==> fitted(s, n, fill).take(s.len() as int) == s && forall|i: int|
            s.len() <= i < n ==> #[trigger] fitted(s, n, fill)[i] == fill,
{
    if s.len() >= n {
        assert(fitted(s, n, fill) =~= s.take(n as int));
    }
    if s.len() <= n {
        assert(fitted(s, n, fill).take(s.len() as int) =~= s);
    }
}

/// Rows between the place that a tab leaves and the one it comes to move by one towards the
/// first of them; all others stay.
pub proof fn rows_between_make_way(index: int, source: int, target: int)
    ensures
        source < index <= target ==> row_shift(index, source, target) == -1,
        target <= index < source ==> row_shift(index, source, target) == 1,
        index < source && index < target ==> row_shift(index, source, target) == 0,
        index > source && index > target ==> row_shift(index, source, target) == 0,
        row_shift(source, source, target) == 0,
{
}

/// A tab that is let go is clicked where it was not dragged, docked where it is over a dock,
/// and else goes behind the rows of other tabs that it passed. Where that is its own place,
/// or tabs have a fixed order, it is clicked.
pub proof fn released_tab_goes_where_it_was_dragged(
    t: &mut TabState,
    visible: Vec<(usize, bool)>,
    r: Option<TabDropAction>,
)
    requires
        call_ensures(TabState::end_tab_drag, (t, &visible), r),
        old(t).wf(),
    ensures
        final(t).drag is None,
        final(t).labels == old(t).labels && final(t).active == old(t).active && final(t).colors
            == old(t).colors,
        r is Some <==> old(t).drag is Some,
        old(t).drag matches Some(d) ==> {
            let n = old(t).labels@.len();
            let passed = visible@.filter(|x: (usize, bool)| x.0 != d.source && x.1).len();
            &&& !d.active ==> r == Some(TabDropAction::Click(d.source))
            &&& d.active && d.dock is Some ==> r == Some(
                TabDropAction::Dock { source: d.source, nav: d.dock->0 },
            )
            &&& d.active && d.dock is None && !old(t).reorderable ==> r == Some(
                TabDropAction::Click(d.source),
            )
            &&& r matches Some(TabDropAction::Reorder { from, to }) ==> {
                &&& from == d.source && to != from && to < n
                &&& visible@.len() > 0
                &&& to == visible@[0].0 + passed || (to == n - 1 && visible@[0].0 + passed >= n)
            }
            &&& d.active && d.dock is None && old(t).reorderable && n >= 2 && visible@.len() > 0
                && visible@[0].0 + passed < n && visible@[0].0 + passed != d.source
                ==> r is Some && r->0 is Reorder
        },
{
    if old(t).drag is Some {
        let d = old(t).drag->0;
        tab_lands_as_far_as_it_passed(d.source, visible@, old(t).labels.len());
        drop_index_is_a_tab(d.source, visible@, old(t).labels.len());
    }
}

/// The rows move with the tab that is reordered, and stay otherwise.
pub proof fn rows_move_with_the_tab(
    t: &mut TabState,
    visible: Vec<(usize, bool)>,
    r: Option<TabDropAction>,
)
    requires
        call_ensures(TabState::end_tab_drag, (t, &visible), r),
    ensures
        !(r is Some && r->0 is Reorder) ==> final(t).anim@ == old(t).anim@,
        r matches Some(TabDropAction::Reorder { from, to }) ==> (from < old(t).anim@.len() && to
            < old(t).anim@.len() ==> final(t).anim@.len() == old(t).anim@.len() && final(t).anim@[
        to as int] == old(t).anim@[from as int]),
{
}

/// A place for a tab is the first shown row and what was passed of the others.
pub proof fn computed_place_counts_passed_rows(
    source: usize,
    visible: Vec<(usize, bool)>,
    tab_count: usize,
    r: usize,
)
    requires
        call_ensures(tab_drop_index_from_visible_rows, (source, &visible, tab_count), r),
        tab_count > 0,
    ensures
        visible@.len() == 0 ==> r == source,
        visible@.len() > 0 ==> ({
            let passed = visible@.filter(|x: (usize, bool)| x.0 != source && x.1).len();
            &&& visible@[0].0 + passed < tab_count ==> r == visible@[0].0 + passed
            &&& visible@[0].0 + passed >= tab_count ==> r == tab_count - 1
        }),
{
    tab_lands_as_far_as_it_passed(source, visible@, tab_count);
}

/// A drag begins with the press on a tab, counts once it went far enough, and from then on;
/// a dock is taken only while it counts.
pub proof fn drag_counts_once_it_went_far(
    t: &mut TabState,
    past_threshold: bool,
    dock: Option<SplitNav>,
    r: bool,
)
    requires
        call_ensures(TabState::update_tab_drag, (t, past_threshold, dock), r),
    ensures
        old(t).drag is None ==> !r && final(t).drag is None,
        old(t).drag matches Some(d) ==> {
            &&& final(t).drag is Some && final(t).drag->0.source == d.source
            &&& r <==> d.active || past_threshold
            &&& final(t).drag->0.active == r
            &&& r ==> final(t).drag->0.dock == dock
            &&& !r ==> final(t).drag->0.dock == d.dock
        },
        final(t).labels == old(t).labels && final(t).active == old(t).active,
{
}

/// A pressed tab is armed and not yet dragged.
pub proof fn pressed_tab_is_armed(t: &mut TabState, source: usize)
    requires
        call_ensures(TabState::arm_tab_drag, (t, source), ()),
    ensures
        final(t).drag is Some && final(t).drag->0.source == source,
        !final(t).drag->0.active && final(t).drag->0.dock is None,
        final(t).labels == old(t).labels && final(t).active == old(t).active && final(t).anim
            == old(t).anim,
{
}

/// A row makes way towards the place that the dragged tab left.
pub proof fn row_makes_way_for_the_tab(index: usize, source: usize, target: usize, s: TabShift)
    requires
        call_ensures(tab_make_way, (index, source, target), s),
    ensures
        s is Up <==> source < index <= target,
        s is Down <==> target <= index < source,
        s is Stay <==> !(source < index <= target) && !(target <= index < source),
{
}

/// Tabs that are told of are the tabs: each with its own label, color, logo and marks, and
/// without one where none was told. At least one tab is there, the active one is among them,
/// and a drag of a tab that is gone ends.
pub proof fn told_tabs_are_the_tabs(
    t: &mut TabState,
    labels: Vec<String>,
    colors: Vec<Option<Rgb>>,
    dots: Vec<bool>,
    running: Vec<bool>,
    attention: Vec<bool>,
    failed: Vec<bool>,
    flashing: Vec<bool>,
    logos: Vec<Option<AiLogo>>,
    shells: Vec<String>,
    ai_fork: Vec<bool>,
    active: usize,
    reorderable: bool,
    i: int,
)
    requires
        call_ensures(
            TabState::set_chrome_tabs,
            (
                t,
                labels,
                colors,
                dots,
                running,
                attention,
                failed,
                flashing,
                logos,
                shells,
                ai_fork,
                active,
                reorderable,
            ),
            (),
        ),
        0 <= i < labels@.len(),
    ensures
        final(t).labels@.len() == labels@.len(),
        final(t).labels@[i]@ == labels@[i]@,
        final(t).colors@[i] == (if i < colors@.len() {
            colors@[i]
        } else {
            None
        }),
        final(t).bells@[i] <==> i < dots@.len() && dots@[i],
        final(t).running@[i] <==> i < running@.len() && running@[i],
        final(t).attention@[i] <==> i < attention@.len() && attention@[i],
        final(t).failed@[i] <==> i < failed@.len() && failed@[i],
        final(t).flashing@[i] <==> i < flashing@.len() && flashing@[i],
        final(t).ai_fork@[i] <==> i < ai_fork@.len() && ai_fork@[i],
        final(t).logos@[i] == (if i < logos@.len() {
            logos@[i]
        } else {
            None
        }),
        active < labels@.len() ==> final(t).active == active,
        active >= labels@.len() ==> final(t).active == labels@.len() - 1,
        final(t).reorderable == reorderable,
        final(t).rename == old(t).rename,
        final(t).drag is Some ==> final(t).drag == old(t).drag,
        old(t).drag matches Some(d) ==> (final(t).drag is Some <==> d.source < labels@.len()),
{
    let a = texts(final(t).labels@);
    let b = texts(labels@);
    assert(a.len() == final(t).labels@.len() && b.len() == labels@.len());
    assert(a[i] == final(t).labels@[i]@ && b[i] == labels@[i]@);
}

} // verus!
