//! Highlighted links: what is under the pointer and under the keyboard cursor, and when a
//! highlight has to go.
use vstd::prelude::*;

verus! {

/// A cell of the grid; lines of the history are negative.
#[derive(Clone, Copy, Debug, PartialEq, Eq, Structural)]
pub struct GridPoint {
    pub line: i32,
    pub column: usize,
}

/// A cell of the visible part.
#[derive(Clone, Copy, Debug, PartialEq, Eq, Structural)]
pub struct ViewPoint {
    pub line: usize,
    pub column: usize,
}

/// A highlighted match: the rule that found it, its first and its last cell, and the link
/// behind it.
#[derive(Clone, Copy, Debug, PartialEq, Eq, Structural)]
pub struct HintMatch {
    pub rule: usize,
    pub start: GridPoint,
    pub end: GridPoint,
    pub link: Option<u64>,
}

/// The highlights, and how many frames each has been there.
#[derive(Clone, Copy, Debug, PartialEq, Eq, Structural)]
pub struct HintHighlights {
    pub mouse: Option<HintMatch>,
    pub vi: Option<HintMatch>,
    pub mouse_age: usize,
    pub vi_age: usize,
    pub mouse_point: Option<GridPoint>,
}

/// What the pointer looks like.
#[derive(Clone, Copy, Debug, PartialEq, Eq, Structural)]
pub enum PointerShape {
    Arrow,
    Hand,
}

/// What became of the highlights: whether they changed, whether everything has to be
/// drawn, and a new shape of the pointer.
#[derive(Clone, Copy, Debug, PartialEq, Eq, Structural)]
pub struct HintOutcome {
    pub changed: bool,
    pub redraw_all: bool,
    pub pointer: Option<PointerShape>,
}

/// What is under the pointer and under the keyboard cursor, whether the pointer is shown and
/// over the text, and whether anything is selected.
#[derive(Clone, Copy, Debug, PartialEq, Eq, Structural)]
pub struct HintInput {
    pub vi_mode: bool,
    pub vi_match: Option<HintMatch>,
    pub pointer_shown: bool,
    pub over_text: bool,
    pub selecting: bool,
    pub mouse_match: Option<HintMatch>,
    pub point: GridPoint,
}

impl HintInput {
    /// Whether what is under the pointer is highlighted at all.
    pub open spec fn mouse_counts(self) -> bool {
        self.pointer_shown && self.over_text && !self.selecting
    }
}

/// A part of a line that changed.
#[derive(Clone, Copy, Debug, PartialEq, Eq, Structural)]
pub struct LineDamage {
    pub line: usize,
    pub left: usize,
    pub right: usize,
}

impl HintHighlights {
    /// The match under the keyboard cursor, which exists in vi mode only.
    pub open spec fn vi_found(input: HintInput) -> Option<HintMatch> {
        if input.vi_mode {
            input.vi_match
        } else {
            None
        }
    }

    /// The highlights for what is under the pointer and the keyboard cursor now.
    pub open spec fn updated(self, input: HintInput) -> HintHighlights {
        let vi = HintHighlights { vi: HintHighlights::vi_found(input), vi_age: 0, ..self };
        if !input.mouse_counts() {
            HintHighlights { mouse: None, ..vi }
        } else {
            HintHighlights {
                mouse: input.mouse_match,
                mouse_age: 0,
                mouse_point: if input.mouse_match is Some {
                    Some(input.point)
                } else if self.mouse is Some {
                    None
                } else {
                    self.mouse_point
                },
                ..vi
            }
        }
    }

    /// What that asks for. A link under the pointer counts as changed too when the pointer
    /// changes its line, since the preview may have covered it.
    pub open spec fn outcome(self, input: HintInput) -> HintOutcome {
        let vi_changed = HintHighlights::vi_found(input) != self.vi;
        if !input.mouse_counts() {
            HintOutcome {
                changed: vi_changed || self.mouse is Some,
                redraw_all: vi_changed || self.mouse is Some,
                pointer: None,
            }
        } else {
            let mouse_changed = self.mouse != input.mouse_match;
            let line_changed = input.mouse_match is Some && (self.mouse_point matches Some(p)
                && p.line != input.point.line);
            HintOutcome {
                changed: vi_changed || line_changed || mouse_changed,
                redraw_all: vi_changed || mouse_changed,
                pointer: if input.mouse_match is Some {
                    Some(PointerShape::Hand)
                } else if self.mouse is Some {
                    Some(PointerShape::Arrow)
                } else {
                    None
                },
            }
        }
    }

    /// Takes over what is under the pointer and the keyboard cursor.
    pub fn update_highlighted_hints(&mut self, input: HintInput) -> (o: HintOutcome)
        ensures
            *final(self) == old(self).updated(input),
            o == old(self).outcome(input),
    {
        let vi: Option<HintMatch> = if input.vi_mode {
            input.vi_match
        } else {
            None
        };
        let mut changed: bool = vi != self.vi;
        let mut redraw_all: bool = changed;
        self.vi = vi;
        self.vi_age = 0;
        if !(input.pointer_shown && input.over_text && !input.selecting) {
            if self.mouse.is_some() {
                self.mouse = None;
                redraw_all = true;
                changed = true;
            }
            return HintOutcome { changed, redraw_all, pointer: None };
        }
        let mut pointer: Option<PointerShape> = None;
        if input.mouse_match.is_some() {
            if let Some(p) = self.mouse_point {
                changed = changed || p.line != input.point.line;
            }
            self.mouse_point = Some(input.point);
            pointer = Some(PointerShape::Hand);
        } else if self.mouse.is_some() {
            self.mouse_point = None;
            pointer = Some(PointerShape::Arrow);
        }
        let mouse_changed: bool = self.mouse != input.mouse_match;
        self.mouse = input.mouse_match;
        self.mouse_age = 0;
        HintOutcome {
            changed: changed || mouse_changed,
            redraw_all: redraw_all || mouse_changed,
            pointer,
        }
    }
}

impl HintHighlights {
    /// The highlight whose link is previewed: the one under the pointer before the one
    /// under the keyboard cursor, where it has a link.
    pub open spec fn previewed(self) -> Option<HintMatch> {
        match (self.mouse, self.vi) {
            (Some(m), _) if m.link is Some => Some(m),
            (_, Some(v)) if v.link is Some => Some(v),
            _ => None,
        }
    }

    /// The highlight whose link is previewed.
    pub fn link_hint(&self) -> (r: Option<HintMatch>)
        ensures
            r == self.previewed(),
    {
        if let Some(m) = self.mouse {
            if m.link.is_some() {
                return Some(m);
            }
        }
        match self.vi {
            Some(v) => if v.link.is_some() {
                Some(v)
            } else {
                None
            },
            None => None,
        }
    }
}

/// A highlight never comes, goes or becomes another one without being told.
pub proof fn changed_highlights_are_told(h: HintHighlights, input: HintInput)
    ensures
        h.updated(input).mouse != h.mouse ==> h.outcome(input).changed,
        h.updated(input).vi != h.vi ==> h.outcome(input).changed,
{
}

/// Whether a changed part of a line lies in the cells from `start` to `end`: on their first
/// and last line only their own columns count, on lines between all of them.
pub open spec fn damages(d: LineDamage, start: ViewPoint, end: ViewPoint) -> bool {
    &&& start.line <= d.line <= end.line
    &&& d.line == start.line ==> d.right >= start.column
    &&& d.line == end.line ==> d.left <= end.column
}

/// Whether any changed part lies in the cells from `start` to `end`.
pub open spec fn any_damages(lines: Seq<LineDamage>, start: ViewPoint, end: ViewPoint) -> bool {
    exists|i: int| 0 <= i < lines.len() && damages(#[trigger] lines[i], start, end)
}

fn damage_touches(lines: &Vec<LineDamage>, start: ViewPoint, end: ViewPoint) -> (r: bool)
    ensures
        r == any_damages(lines@, start, end),
{
    let mut i: usize = 0;
    while i < lines.len()
        invariant
            i <= lines@.len(),
            forall|k: int| 0 <= k < i ==> !damages(#[trigger] lines@[k], start, end),
        decreases lines@.len() - i,
    {
        let d: LineDamage = lines[i];
        if start.line <= d.line && d.line <= end.line && (d.line != start.line || d.right
            >= start.column) && (d.line != end.line || d.left <= end.column) {
            proof {
                assert(damages(lines@[i as int], start, end));
            }
            return true;
        }
        i += 1;
    }
    false
}

/// The visible cells of a highlight: from its first cell, or the first cell of the view
/// where that is out of sight, to its last, or the last cell of the view.
pub open spec fn visible_start(start: Option<ViewPoint>, num_lines: usize) -> ViewPoint {
    match start {
        Some(p) if p.line < num_lines => p,
        _ => ViewPoint { line: 0, column: 0 },
    }
}

pub open spec fn visible_end(
    end: Option<ViewPoint>,
    num_lines: usize,
    last_column: usize,
) -> ViewPoint {
    match end {
        Some(p) if p.line < num_lines => p,
        _ => ViewPoint { line: (num_lines - 1) as usize, column: last_column },
    }
}

/// What changed since the last frame, in a view of `num_lines` lines.
#[derive(Debug)]
pub struct GridDamage {
    pub full: bool,
    pub lines: Vec<LineDamage>,
    pub num_lines: usize,
    pub last_column: usize,
}

/// Where a highlight begins and ends in the view, as far as either is above or in it.
#[derive(Clone, Copy, Debug, PartialEq, Eq, Structural)]
pub struct ViewBounds {
    pub start: Option<ViewPoint>,
    pub end: Option<ViewPoint>,
}

impl GridDamage {
    /// Whether the cells under a highlight changed.
    pub open spec fn under(self, b: ViewBounds) -> bool {
        self.full || any_damages(
            self.lines@,
            visible_start(b.start, self.num_lines),
            visible_end(b.end, self.num_lines, self.last_column),
        )
    }

    fn is_under(&self, b: ViewBounds) -> (r: bool)
        requires
            self.num_lines > 0,
        ensures
            r == self.under(b),
    {
        if self.full {
            return true;
        }
        let start: ViewPoint = match b.start {
            Some(p) => if p.line < self.num_lines {
                p
            } else {
                ViewPoint { line: 0, column: 0 }
            },
            None => ViewPoint { line: 0, column: 0 },
        };
        let last = ViewPoint { line: self.num_lines - 1, column: self.last_column };
        let end: ViewPoint = match b.end {
            Some(p) => if p.line < self.num_lines {
                p
            } else {
                last
            },
            None => last,
        };
        damage_touches(&self.lines, start, end)
    }
}

impl HintHighlights {
    /// Whether a highlight of this age goes. In its first frame it stays.
    pub open spec fn goes(
        shown: Option<HintMatch>,
        age: usize,
        damage: GridDamage,
        b: ViewBounds,
    ) -> bool {
        shown is Some && age > 0 && damage.under(b)
    }

    /// The highlights a frame later: those whose cells changed are gone.
    pub open spec fn validated(
        self,
        damage: GridDamage,
        mouse: ViewBounds,
        vi: ViewBounds,
    ) -> HintHighlights {
        HintHighlights {
            mouse: if HintHighlights::goes(self.mouse, self.mouse_age, damage, mouse) {
                None
            } else {
                self.mouse
            },
            vi: if HintHighlights::goes(self.vi, self.vi_age, damage, vi) {
                None
            } else {
                self.vi
            },
            mouse_age: if self.mouse is Some {
                (self.mouse_age + 1) as usize
            } else {
                self.mouse_age
            },
            vi_age: if self.vi is Some {
                (self.vi_age + 1) as usize
            } else {
                self.vi_age
            },
            ..self
        }
    }

    /// Drops the highlights whose cells changed. `mouse` and `vi` are where the highlights
    /// lie in the view. The pointer becomes an arrow with the end of its highlight.
    pub fn validate_hint_highlights(
        &mut self,
        damage: &GridDamage,
        mouse: ViewBounds,
        vi: ViewBounds,
    ) -> (o: HintOutcome)
        requires
            damage.num_lines > 0,
            old(self).mouse_age < usize::MAX,
            old(self).vi_age < usize::MAX,
        ensures
            *final(self) == old(self).validated(*damage, mouse, vi),
            ({
                let mouse_goes = HintHighlights::goes(
                    old(self).mouse,
                    old(self).mouse_age,
                    *damage,
                    mouse,
                );
                let vi_goes = HintHighlights::goes(old(self).vi, old(self).vi_age, *damage, vi);
                &&& o.changed == (mouse_goes || vi_goes)
                &&& o.redraw_all == (mouse_goes || vi_goes)
                &&& o.pointer == (if mouse_goes {
                    Some(PointerShape::Arrow)
                } else {
                    None
                })
            }),
    {
        let mut pointer: Option<PointerShape> = None;
        let mut changed: bool = false;
        if self.mouse.is_some() {
            let old_age: usize = self.mouse_age;
            self.mouse_age = old_age + 1;
            if old_age > 0 && damage.is_under(mouse) {
                pointer = Some(PointerShape::Arrow);
                changed = true;
                self.mouse = None;
            }
        }
        if self.vi.is_some() {
            let old_age: usize = self.vi_age;
            self.vi_age = old_age + 1;
            if old_age > 0 && damage.is_under(vi) {
                changed = true;
                self.vi = None;
            }
        }
        HintOutcome { changed, redraw_all: changed, pointer }
    }
}

/// A highlight survives the frame that it appeared in, whatever changed.
pub proof fn new_highlight_survives_first_frame(
    h: HintHighlights,
    input: HintInput,
    damage: GridDamage,
    mouse: ViewBounds,
    vi: ViewBounds,
)
    requires
        input.mouse_counts(),
    ensures
        h.updated(input).validated(damage, mouse, vi).mouse == input.mouse_match,
        h.updated(input).validated(damage, mouse, vi).vi == HintHighlights::vi_found(input),
{
}

/// While nothing under a highlight changes, it stays.
pub proof fn untouched_highlight_stays(
    h: HintHighlights,
    damage: GridDamage,
    mouse: ViewBounds,
    vi: ViewBounds,
)
    requires
        !damage.under(mouse),
        !damage.under(vi),
    ensures
        h.validated(damage, mouse, vi).mouse == h.mouse,
        h.validated(damage, mouse, vi).vi == h.vi,
{
}

/// Whether a cell comes before another one or is it, in the order of reading.
pub open spec fn view_le(a: ViewPoint, b: ViewPoint) -> bool {
    a.line < b.line || (a.line == b.line && a.column <= b.column)
}

/// A changed part of a line touches a highlight exactly where they share a cell.
pub proof fn damage_touches_shared_cells(d: LineDamage, start: ViewPoint, end: ViewPoint)
    requires
        d.left <= d.right,
        view_le(start, end),
    ensures
        damages(d, start, end) <==> exists|c: usize|
            d.left <= c <= d.right && view_le(start, ViewPoint { line: d.line, column: c })
                && #[trigger] view_le(ViewPoint { line: d.line, column: c }, end),
{
    if damages(d, start, end) {
        let c = if d.line == start.line && start.column > d.left {
            start.column
        } else {
            d.left
        };
        assert(view_le(ViewPoint { line: d.line, column: c }, end));
    }
}

/// A highlight goes exactly where it has been drawn once and something under it changed; the
/// other one is not touched by that.
pub proof fn changed_cells_end_a_highlight(
    h: HintHighlights,
    damage: GridDamage,
    mouse: ViewBounds,
    vi: ViewBounds,
)
    ensures
        ({
            let now = h.validated(damage, mouse, vi);
            &&& now.mouse == h.mouse || now.mouse is None
            &&& now.vi == h.vi || now.vi is None
            &&& h.mouse is Some ==> (now.mouse is None <==> h.mouse_age > 0 && damage.under(mouse))
            &&& h.vi is Some ==> (now.vi is None <==> h.vi_age > 0 && damage.under(vi))
            &&& damage.full ==> damage.under(mouse) && damage.under(vi)
            &&& !damage.full && damage.lines@.len() == 0 ==> !damage.under(mouse)
            &&& now.mouse_point == h.mouse_point
            &&& h.mouse is Some && h.mouse_age < usize::MAX ==> now.mouse_age == h.mouse_age + 1
            &&& h.mouse is None ==> now.mouse_age == h.mouse_age
        }),
{
}

/// What is under the pointer is highlighted while the pointer is shown over the text and
/// nothing is selected, and else nothing is; what is under the keyboard cursor is highlighted
/// in its mode alone.
pub proof fn highlights_follow_pointer_and_cursor(h: HintHighlights, input: HintInput)
    ensures
        ({
            let now = h.updated(input);
            let counts = input.pointer_shown && input.over_text && !input.selecting;
            &&& counts ==> now.mouse == input.mouse_match && now.mouse_age == 0
            &&& !counts ==> now.mouse is None
            &&& input.vi_mode ==> now.vi == input.vi_match
            &&& !input.vi_mode ==> now.vi is None
            &&& now.vi_age == 0
            &&& counts && input.mouse_match is Some ==> now.mouse_point == Some(input.point)
                && h.outcome(input).pointer == Some(PointerShape::Hand)
            &&& counts && input.mouse_match is None && h.mouse is Some ==> now.mouse_point is None
                && h.outcome(input).pointer == Some(PointerShape::Arrow)
            &&& now.mouse == h.mouse && now.vi == h.vi && !(counts && input.mouse_match is Some
                && h.mouse_point is Some && h.mouse_point->0.line != input.point.line)
                ==> !h.outcome(input).changed
        }),
{
}

/// The link of the pointer's highlight is shown before that of the keyboard cursor's, and a
/// highlight without a link shows none.
pub proof fn previewed_link_is_a_highlight(h: HintHighlights)
    ensures
        h.previewed() matches Some(m) ==> m.link is Some && (h.mouse == Some(m) || h.vi == Some(m)),
        h.mouse is Some && h.mouse->0.link is Some ==> h.previewed() == h.mouse,
        h.previewed() is None <==> !(h.mouse is Some && h.mouse->0.link is Some) && !(h.vi is Some
            && h.vi->0.link is Some),
{
}

/// A highlight that begins above the view reaches from its first cell, and one that ends
/// below it up to its last.
pub proof fn hidden_ends_reach_the_edge(p: Option<ViewPoint>, num_lines: usize, last_column: usize)
    requires
        num_lines > 0,
    ensures
        p is None || p->0.line >= num_lines ==> visible_start(p, num_lines).line == 0
            && visible_start(p, num_lines).column == 0 && visible_end(p, num_lines, last_column).line
            == num_lines - 1 && visible_end(p, num_lines, last_column).column == last_column,
        p is Some && p->0.line < num_lines ==> visible_start(p, num_lines) == p->0 && visible_end(
            p,
            num_lines,
            last_column,
        ) == p->0,
{
}

/// What is under the pointer is highlighted with the hand, and nothing while the pointer does
/// not count; only a change is drawn.
pub proof fn pointer_highlights_what_is_under_it(
    s: &mut HintHighlights,
    input: HintInput,
    o: HintOutcome,
)
    requires
        call_ensures(HintHighlights::update_highlighted_hints, (s, input), o),
    ensures
        ({
            let counts = input.pointer_shown && input.over_text && !input.selecting;
            &&& counts ==> final(s).mouse == input.mouse_match
            &&& !counts ==> final(s).mouse is None && o.pointer is None
            &&& counts && input.mouse_match is Some ==> o.pointer == Some(PointerShape::Hand)
            &&& counts && input.mouse_match is None && old(s).mouse is Some ==> o.pointer == Some(
                PointerShape::Arrow,
            )
        }),
        input.vi_mode ==> final(s).vi == input.vi_match,
        !input.vi_mode ==> final(s).vi is None,
        final(s).mouse != old(s).mouse || final(s).vi != old(s).vi ==> o.changed && o.redraw_all,
        o.redraw_all ==> final(s).mouse != old(s).mouse || final(s).vi != old(s).vi,
{
}

/// A highlight whose cells changed goes once it was drawn, with the hand; everything is drawn
/// then. What did not change stays.
pub proof fn changed_highlight_goes(
    s: &mut HintHighlights,
    damage: GridDamage,
    mouse: ViewBounds,
    vi: ViewBounds,
    o: HintOutcome,
)
    requires
        call_ensures(HintHighlights::validate_hint_highlights, (s, &damage, mouse, vi), o),
    ensures
        old(s).mouse is Some ==> (final(s).mouse is None <==> old(s).mouse_age > 0 && damage.under(
            mouse,
        )),
        old(s).vi is Some ==> (final(s).vi is None <==> old(s).vi_age > 0 && damage.under(vi)),
        final(s).mouse is Some ==> final(s).mouse == old(s).mouse,
        final(s).vi is Some ==> final(s).vi == old(s).vi,
        o.changed <==> final(s).mouse != old(s).mouse || final(s).vi != old(s).vi,
        o.redraw_all == o.changed,
        o.pointer is Some <==> old(s).mouse is Some && final(s).mouse is None,
        damage.full && old(s).mouse is Some && old(s).mouse_age > 0 ==> final(s).mouse is None,
        !damage.full && damage.lines@.len() == 0 ==> final(s).mouse == old(s).mouse,
{
}

} // verus!
