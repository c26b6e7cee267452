//! One terminal in a frame: what is drawn of it and over it, and how its cells look.
use crate::color::Rgb;
use crate::hints::{GridPoint, LineDamage, ViewPoint};
use crate::ime::{
    draw_line_indicator, draw_search, format_search, indicator_text, search_label, LineIndicator,
};
use crate::page::PageState;
use crate::text::{chars_of, repeated, text_range};
use vstd::prelude::*;

verus! {

/// A place in the prompt that an icon is drawn at.
pub const NEBULA_FOLDER_ICON_MARKER: char = '\u{E100}';

pub const NEBULA_GIT_BRANCH_ICON_MARKER: char = '\u{E101}';

/// The lines that a cell is drawn with.
#[derive(Clone, Copy, Debug, PartialEq, Eq, Structural)]
pub struct CellLines {
    pub underline: bool,
    pub double_underline: bool,
    pub undercurl: bool,
    pub dotted_underline: bool,
    pub dashed_underline: bool,
    pub strikeout: bool,
}

/// A cell of a terminal before it is drawn. `formula` tells that a formula is drawn over
/// it, `projected` where it is drawn, and `highlighted` that a highlight covers it.
#[derive(Clone, Copy, Debug, PartialEq, Eq, Structural)]
pub struct PaneCell {
    pub source: ViewPoint,
    pub grid: GridPoint,
    pub projected: Option<ViewPoint>,
    pub formula: bool,
    pub highlighted: bool,
    pub character: char,
    pub lines: CellLines,
    pub extra: bool,
    pub fg: Rgb,
    pub underline_color: Rgb,
}

/// A cell as it is drawn.
#[derive(Clone, Copy, Debug, PartialEq, Eq, Structural)]
pub struct DrawnCell {
    pub point: ViewPoint,
    pub character: char,
    pub lines: CellLines,
    pub extra: bool,
    pub fg: Rgb,
    pub underline_color: Rgb,
}

/// The icons of a prompt.
#[derive(Clone, Copy, Debug, PartialEq, Eq, Structural)]
pub enum PowerlineIconKind {
    Folder,
    GitBranch,
}

#[derive(Clone, Copy, Debug, PartialEq, Eq, Structural)]
pub struct PowerlineIcon {
    pub kind: PowerlineIconKind,
    pub point: ViewPoint,
}

/// Cells that can be clicked, from the first to the last.
#[derive(Clone, Copy, Debug, PartialEq, Eq, Structural)]
pub struct ClickRange {
    pub start: GridPoint,
    pub end: GridPoint,
}

/// Whether a cell comes before another one.
pub open spec fn point_lt(a: GridPoint, b: GridPoint) -> bool {
    a.line < b.line || (a.line == b.line && a.column < b.column)
}

pub open spec fn point_le(a: GridPoint, b: GridPoint) -> bool {
    a == b || point_lt(a, b)
}

pub open spec fn in_click_range(r: ClickRange, p: GridPoint) -> bool {
    point_le(r.start, p) && point_le(p, r.end)
}

fn comes_before(a: GridPoint, b: GridPoint) -> (r: bool)
    ensures
        r == point_lt(a, b),
{
    a.line < b.line || (a.line == b.line && a.column < b.column)
}

/// The first range from `i` on that does not end before the cell.
pub open spec fn next_range(ranges: Seq<ClickRange>, i: int, p: GridPoint) -> int
    decreases ranges.len() - i,
{
    if 0 <= i < ranges.len() && point_lt(ranges[i].end, p) {
        next_range(ranges, i + 1, p)
    } else {
        i
    }
}

/// The range that the walk over the cells has reached before the cell `k`. Cells that are
/// not drawn do not move it.
pub open spec fn range_before(cells: Seq<PaneCell>, ranges: Seq<ClickRange>, k: int) -> int
    decreases k,
{
    if k <= 0 {
        0
    } else if cells[k - 1].projected is None {
        range_before(cells, ranges, k - 1)
    } else {
        next_range(ranges, range_before(cells, ranges, k - 1), cells[k - 1].grid)
    }
}

/// Whether the cell `k` can be clicked.
pub open spec fn is_clickable(cells: Seq<PaneCell>, ranges: Seq<ClickRange>, k: int) -> bool {
    let i = next_range(ranges, range_before(cells, ranges, k), cells[k].grid);
    0 <= i < ranges.len() && in_click_range(ranges[i], cells[k].grid)
}

/// The icon that a cell stands for.
pub open spec fn icon_of(cell: PaneCell) -> Option<PowerlineIconKind> {
    let shown = if cell.formula {
        ' '
    } else {
        cell.character
    };
    if shown == NEBULA_FOLDER_ICON_MARKER {
        Some(PowerlineIconKind::Folder)
    } else if shown == NEBULA_GIT_BRANCH_ICON_MARKER {
        Some(PowerlineIconKind::GitBranch)
    } else {
        None
    }
}

/// The lines of a cell: none under a formula; dashed where it can be clicked, whatever it
/// had; and underlined where a highlight covers it and it cannot.
pub open spec fn drawn_lines(cell: PaneCell, clickable: bool) -> CellLines {
    let kept = if cell.formula {
        CellLines {
            underline: false,
            double_underline: false,
            undercurl: false,
            dotted_underline: false,
            dashed_underline: false,
            strikeout: false,
        }
    } else {
        cell.lines
    };
    if clickable {
        CellLines {
            underline: false,
            double_underline: false,
            undercurl: false,
            dotted_underline: false,
            dashed_underline: true,
            strikeout: kept.strikeout,
        }
    } else if cell.highlighted {
        CellLines { underline: true, ..kept }
    } else {
        kept
    }
}

/// How a cell is drawn at a place. The dashes under what can be clicked have the color of
/// its text.
pub open spec fn drawn(cell: PaneCell, point: ViewPoint, clickable: bool) -> DrawnCell {
    DrawnCell {
        point,
        character: if cell.formula || icon_of(cell) is Some {
            ' '
        } else {
            cell.character
        },
        lines: drawn_lines(cell, clickable),
        extra: cell.extra && !cell.formula,
        fg: cell.fg,
        underline_color: if clickable {
            cell.fg
        } else {
            cell.underline_color
        },
    }
}

fn draw_cell(cell: PaneCell, point: ViewPoint, clickable: bool) -> (r: (
    DrawnCell,
    Option<PowerlineIconKind>,
))
    ensures
        r.0 == drawn(cell, point, clickable),
        r.1 == icon_of(cell),
{
    let mut character: char = cell.character;
    let mut lines: CellLines = cell.lines;
    let mut extra: bool = cell.extra;
    if cell.formula {
        character = ' ';
        lines = CellLines {
            underline: false,
            double_underline: false,
            undercurl: false,
            dotted_underline: false,
            dashed_underline: false,
            strikeout: false,
        };
        extra = false;
    }
    let mut icon: Option<PowerlineIconKind> = None;
    if character == NEBULA_FOLDER_ICON_MARKER {
        icon = Some(PowerlineIconKind::Folder);
        character = ' ';
    } else if character == NEBULA_GIT_BRANCH_ICON_MARKER {
        icon = Some(PowerlineIconKind::GitBranch);
        character = ' ';
    }
    let mut underline_color: Rgb = cell.underline_color;
    if clickable {
        lines = CellLines {
            underline: false,
            double_underline: false,
            undercurl: false,
            dotted_underline: false,
            dashed_underline: true,
            strikeout: lines.strikeout,
        };
        underline_color = cell.fg;
    } else if cell.highlighted {
        lines.underline = true;
    }
    (DrawnCell { point, character, lines, extra, fg: cell.fg, underline_color }, icon)
}

/// What is drawn of the first `k` cells.
pub open spec fn drawn_cells(cells: Seq<PaneCell>, ranges: Seq<ClickRange>, k: int) -> Seq<DrawnCell>
    decreases k,
{
    if k <= 0 {
        Seq::empty()
    } else {
        let before = drawn_cells(cells, ranges, k - 1);
        match cells[k - 1].projected {
            Some(p) => before.push(drawn(cells[k - 1], p, is_clickable(cells, ranges, k - 1))),
            None => before,
        }
    }
}

/// The icons among the first `k` cells.
pub open spec fn drawn_icons(cells: Seq<PaneCell>, k: int) -> Seq<PowerlineIcon>
    decreases k,
{
    if k <= 0 {
        Seq::empty()
    } else {
        let before = drawn_icons(cells, k - 1);
        match (cells[k - 1].projected, icon_of(cells[k - 1])) {
            (Some(point), Some(kind)) => before.push(PowerlineIcon { kind, point }),
            _ => before,
        }
    }
}

/// The highlighted cells among the first `k`, which have to be drawn anew.
pub open spec fn highlighted_cells(cells: Seq<PaneCell>, k: int) -> Seq<ViewPoint>
    decreases k,
{
    if k <= 0 {
        Seq::empty()
    } else {
        let before = highlighted_cells(cells, k - 1);
        if cells[k - 1].projected is Some && cells[k - 1].highlighted {
            before.push(cells[k - 1].source)
        } else {
            before
        }
    }
}

/// What is drawn of the cells of a terminal.
#[derive(Debug)]
pub struct PaneCells {
    pub cells: Vec<DrawnCell>,
    pub icons: Vec<PowerlineIcon>,
    pub damage: Vec<ViewPoint>,
}

/// Draws the cells of a terminal, in one walk over cells and clickable ranges.
pub fn compose_cells(cells: &Vec<PaneCell>, ranges: &Vec<ClickRange>) -> (r: PaneCells)
    ensures
        r.cells@ == drawn_cells(cells@, ranges@, cells@.len() as int),
        r.icons@ == drawn_icons(cells@, cells@.len() as int),
        r.damage@ == highlighted_cells(cells@, cells@.len() as int),
{
    let mut out: Vec<DrawnCell> = Vec::new();
    let mut icons: Vec<PowerlineIcon> = Vec::new();
    let mut damage: Vec<ViewPoint> = Vec::new();
    let mut range: usize = 0;
    let mut k: usize = 0;
    while k < cells.len()
        invariant
            k <= cells@.len(),
            range <= ranges@.len(),
            range == range_before(cells@, ranges@, k as int),
            out@ == drawn_cells(cells@, ranges@, k as int),
            icons@ == drawn_icons(cells@, k as int),
            damage@ == highlighted_cells(cells@, k as int),
        decreases cells@.len() - k,
    {
        let cell: PaneCell = cells[k];
        if let Some(point) = cell.projected {
            while range < ranges.len() && comes_before(ranges[range].end, cell.grid)
                invariant
                    range <= ranges@.len(),
                    next_range(ranges@, range as int, cell.grid) == next_range(
                        ranges@,
                        range_before(cells@, ranges@, k as int),
                        cell.grid,
                    ),
                decreases ranges@.len() - range,
            {
                range += 1;
            }
            let clickable: bool = range < ranges.len() && !comes_before(
                cell.grid,
                ranges[range].start,
            ) && !comes_before(ranges[range].end, cell.grid);
            proof {
                let i = next_range(ranges@, range_before(cells@, ranges@, k as int), cell.grid);
                assert(i == range);
                if range < ranges@.len() {
                    let r = ranges@[range as int];
                    assert(point_lt(cell.grid, r.start) || point_le(r.start, cell.grid));
                    assert(point_lt(r.end, cell.grid) || point_le(cell.grid, r.end));
                }
                assert(clickable == is_clickable(cells@, ranges@, k as int));
            }
            let (d, icon): (DrawnCell, Option<PowerlineIconKind>) = draw_cell(
                cell,
                point,
                clickable,
            );
            if let Some(kind) = icon {
                icons.push(PowerlineIcon { kind, point });
            }
            if cell.highlighted {
                damage.push(cell.source);
            }
            out.push(d);
        }
        k += 1;
    }
    PaneCells { cells: out, icons, damage }
}

/// Ranges in the order of the grid that do not overlap.
pub open spec fn ranges_in_order(ranges: Seq<ClickRange>) -> bool {
    &&& forall|i: int| 0 <= i < ranges.len() ==> point_le((#[trigger] ranges[i]).start, ranges[i].end)
    &&& forall|i: int, j: int|
        0 <= i < j < ranges.len() ==> point_lt(
            (#[trigger] ranges[i]).end,
            (#[trigger] ranges[j]).start,
        )
}

/// Cells in the order of the grid.
pub open spec fn cells_in_order(cells: Seq<PaneCell>) -> bool {
    forall|i: int, j: int|
        0 <= i <= j < cells.len() ==> point_le(
            (#[trigger] cells[i]).grid,
            (#[trigger] cells[j]).grid,
        )
}

proof fn lemma_next_range(ranges: Seq<ClickRange>, i: int, p: GridPoint)
    requires
        0 <= i <= ranges.len(),
    ensures
        i <= next_range(ranges, i, p) <= ranges.len(),
        forall|j: int|
            i <= j < next_range(ranges, i, p) ==> point_lt((#[trigger] ranges[j]).end, p),
        next_range(ranges, i, p) < ranges.len() ==> !point_lt(
            ranges[next_range(ranges, i, p)].end,
            p,
        ),
    decreases ranges.len() - i,
{
    if i < ranges.len() && point_lt(ranges[i].end, p) {
        lemma_next_range(ranges, i + 1, p);
    }
}

proof fn lemma_ranges_passed(cells: Seq<PaneCell>, ranges: Seq<ClickRange>, k: int, p: GridPoint)
    requires
        cells_in_order(cells),
        0 <= k <= cells.len(),
        k > 0 ==> point_le(cells[k - 1].grid, p),
    ensures
        0 <= range_before(cells, ranges, k) <= ranges.len(),
        forall|j: int|
            0 <= j < range_before(cells, ranges, k) ==> point_lt((#[trigger] ranges[j]).end, p),
    decreases k,
{
    if k > 0 {
        let q = cells[k - 1].grid;
        if k > 1 {
            assert(point_le(cells[k - 2].grid, cells[k - 1].grid));
        }
        lemma_ranges_passed(cells, ranges, k - 1, q);
        lemma_next_range(ranges, range_before(cells, ranges, k - 1), q);
    }
}

/// In a grid that is walked in order, exactly the cells inside a clickable range can be
/// clicked.
pub proof fn clickable_cells_are_those_in_ranges(
    cells: Seq<PaneCell>,
    ranges: Seq<ClickRange>,
    k: int,
)
    requires
        cells_in_order(cells),
        ranges_in_order(ranges),
        0 <= k < cells.len(),
    ensures
        is_clickable(cells, ranges, k) <==> exists|j: int|
            0 <= j < ranges.len() && in_click_range(#[trigger] ranges[j], cells[k].grid),
{
    let p = cells[k].grid;
    if k > 0 {
        assert(point_le(cells[k - 1].grid, cells[k].grid));
    }
    lemma_ranges_passed(cells, ranges, k, p);
    lemma_next_range(ranges, range_before(cells, ranges, k), p);
    let i = next_range(ranges, range_before(cells, ranges, k), p);
    if exists|j: int| 0 <= j < ranges.len() && in_click_range(#[trigger] ranges[j], p) {
        let j = choose|j: int| 0 <= j < ranges.len() && in_click_range(#[trigger] ranges[j], p);
        assert(!point_lt(ranges[j].end, p));
        if i < j {
            assert(point_lt(ranges[i].end, ranges[j].start));
        }
    }
}

/// The cells before `k` that are drawn at all.
pub open spec fn drawn_before(cells: Seq<PaneCell>, k: int) -> int {
    cells.take(k).filter(|c: PaneCell| c.projected is Some).len() as int
}

proof fn lemma_drawn_before(cells: Seq<PaneCell>, k: int)
    requires
        0 <= k < cells.len(),
    ensures
        drawn_before(cells, k + 1) == drawn_before(cells, k) + (if cells[k].projected is Some {
            1int
        } else {
            0
        }),
        drawn_before(cells, 0) == 0,
{
    reveal(Seq::filter);
    assert(cells.take(k + 1).drop_last() =~= cells.take(k));
    assert(cells.take(0) =~= Seq::<PaneCell>::empty());
}

proof fn lemma_drawn_at(cells: Seq<PaneCell>, ranges: Seq<ClickRange>, n: int)
    requires
        0 <= n <= cells.len(),
    ensures
        drawn_cells(cells, ranges, n).len() == drawn_before(cells, n),
        forall|k: int|
            #![trigger cells[k]]
            0 <= k < n && cells[k].projected is Some ==> 0 <= drawn_before(cells, k)
                < drawn_before(cells, n) && drawn_cells(cells, ranges, n)[drawn_before(cells, k)]
                == drawn(cells[k], cells[k].projected->0, is_clickable(cells, ranges, k)),
    decreases n,
{
    if n > 0 {
        lemma_drawn_at(cells, ranges, n - 1);
        lemma_drawn_before(cells, n - 1);
        let now = drawn_cells(cells, ranges, n);
        let before = drawn_cells(cells, ranges, n - 1);
        assert forall|k: int|
            #![trigger cells[k]]
            0 <= k < n && cells[k].projected is Some implies 0 <= drawn_before(cells, k)
            < drawn_before(cells, n) && now[drawn_before(cells, k)] == drawn(
            cells[k],
            cells[k].projected->0,
            is_clickable(cells, ranges, k),
        ) by {
            if k < n - 1 {
                assert(now[drawn_before(cells, k)] == before[drawn_before(cells, k)]);
            }
        }
    } else {
        if cells.len() > 0 {
            lemma_drawn_before(cells, 0);
        } else {
            reveal(Seq::filter);
            assert(cells.take(0) =~= Seq::<PaneCell>::empty());
        }
    }
}

/// No line but the strikeout of a cell.
pub open spec fn no_underline(l: CellLines) -> bool {
    !l.underline && !l.double_underline && !l.undercurl && !l.dotted_underline
        && !l.dashed_underline
}

/// Every cell that has a place is drawn there, in order, and shows its own character in its
/// own color. Only the source of a formula and the two markers of icons are drawn as a
/// blank. Lines stay as they were unless a highlight underlines them; what can be clicked is
/// dashed in the color of its text.
pub proof fn drawn_cells_show_their_text(cells: Seq<PaneCell>, ranges: Seq<ClickRange>)
    requires
        cells_in_order(cells),
        ranges_in_order(ranges),
    ensures
        drawn_cells(cells, ranges, cells.len() as int).len() == drawn_before(
            cells,
            cells.len() as int,
        ),
        forall|k: int|
            #![trigger cells[k]]
            0 <= k < cells.len() && cells[k].projected is Some ==> {
                let c = cells[k];
                let d = drawn_cells(cells, ranges, cells.len() as int)[drawn_before(cells, k)];
                let marker = c.character == NEBULA_FOLDER_ICON_MARKER || c.character
                    == NEBULA_GIT_BRANCH_ICON_MARKER;
                let clickable = exists|j: int|
                    0 <= j < ranges.len() && in_click_range(#[trigger] ranges[j], c.grid);
                &&& c.projected == Some(d.point)
                &&& !c.formula && !marker ==> d.character == c.character
                &&& c.formula || marker ==> d.character == ' '
                &&& d.fg == c.fg
                &&& !c.formula ==> d.extra == c.extra
                &&& c.formula ==> !d.extra && !d.lines.strikeout
                &&& !c.formula ==> d.lines.strikeout == c.lines.strikeout
                &&& clickable ==> d.underline_color == c.fg && d.lines.dashed_underline
                    && no_underline(CellLines { dashed_underline: false, ..d.lines })
                &&& !clickable ==> d.underline_color == c.underline_color
                &&& !clickable && c.highlighted ==> d.lines.underline
                &&& !clickable && !c.highlighted && !c.formula ==> d.lines == c.lines
                &&& !clickable && !c.highlighted && c.formula ==> no_underline(d.lines)
            },
{
    lemma_drawn_at(cells, ranges, cells.len() as int);
    assert forall|k: int|
        #![trigger cells[k]]
        0 <= k < cells.len() && cells[k].projected is Some implies is_clickable(cells, ranges, k)
        == (exists|j: int|
        0 <= j < ranges.len() && in_click_range(#[trigger] ranges[j], cells[k].grid)) by {
        clickable_cells_are_those_in_ranges(cells, ranges, k);
    }
}

proof fn lemma_icons(cells: Seq<PaneCell>, n: int)
    requires
        0 <= n <= cells.len(),
    ensures
        drawn_icons(cells, n) == cells.take(n).filter(
            |c: PaneCell| c.projected is Some && icon_of(c) is Some,
        ).map_values(
            |c: PaneCell| PowerlineIcon { kind: icon_of(c)->0, point: c.projected->0 },
        ),
        highlighted_cells(cells, n) == cells.take(n).filter(
            |c: PaneCell| c.projected is Some && c.highlighted,
        ).map_values(|c: PaneCell| c.source),
    decreases n,
{
    let shown = |c: PaneCell| c.projected is Some && icon_of(c) is Some;
    let icon = |c: PaneCell| PowerlineIcon { kind: icon_of(c)->0, point: c.projected->0 };
    let lit = |c: PaneCell| c.projected is Some && c.highlighted;
    let place = |c: PaneCell| c.source;
    reveal(Seq::filter);
    if n > 0 {
        lemma_icons(cells, n - 1);
        assert(cells.take(n).drop_last() =~= cells.take(n - 1));
        let c = cells[n - 1];
        let a = cells.take(n - 1).filter(shown);
        let b = cells.take(n - 1).filter(lit);
        assert(a.push(c).map_values(icon) =~= a.map_values(icon).push(icon(c)));
        assert(b.push(c).map_values(place) =~= b.map_values(place).push(c.source));
    } else {
        assert(drawn_icons(cells, n) =~= cells.take(n).filter(shown).map_values(icon));
        assert(highlighted_cells(cells, n) =~= cells.take(n).filter(lit).map_values(place));
    }
}

/// Every marker that is drawn becomes an icon of its kind at its place, in order, and
/// nothing else does; a marker in the source of a formula is none. Exactly the highlighted
/// cells that are drawn have to be drawn anew.
pub proof fn markers_become_icons(cells: Seq<PaneCell>)
    ensures
        ({
            let n = cells.len() as int;
            let marker = |c: PaneCell|
                c.projected is Some && !c.formula && (c.character == NEBULA_FOLDER_ICON_MARKER
                    || c.character == NEBULA_GIT_BRANCH_ICON_MARKER);
            &&& drawn_icons(cells, n) == cells.filter(marker).map_values(
                |c: PaneCell|
                    PowerlineIcon {
                        kind: if c.character == NEBULA_FOLDER_ICON_MARKER {
                            PowerlineIconKind::Folder
                        } else {
                            PowerlineIconKind::GitBranch
                        },
                        point: c.projected->0,
                    },
            )
            &&& highlighted_cells(cells, n) == cells.filter(
                |c: PaneCell| c.projected is Some && c.highlighted,
            ).map_values(|c: PaneCell| c.source)
        }),
{
    let n = cells.len() as int;
    let marker = |c: PaneCell|
        c.projected is Some && !c.formula && (c.character == NEBULA_FOLDER_ICON_MARKER
            || c.character == NEBULA_GIT_BRANCH_ICON_MARKER);
    let shown = |c: PaneCell| c.projected is Some && icon_of(c) is Some;
    let icon = |c: PaneCell| PowerlineIcon { kind: icon_of(c)->0, point: c.projected->0 };
    let named = |c: PaneCell|
        PowerlineIcon {
            kind: if c.character == NEBULA_FOLDER_ICON_MARKER {
                PowerlineIconKind::Folder
            } else {
                PowerlineIconKind::GitBranch
            },
            point: c.projected->0,
        };
    lemma_icons(cells, n);
    assert(cells.take(n) =~= cells);
    assert(marker =~= shown);
    let kept = cells.filter(shown);
    assert forall|i: int| 0 <= i < kept.len() implies #[trigger] icon(kept[i]) == named(kept[i]) by {
        cells.lemma_filter_pred(shown, i);
    }
    assert(kept.map_values(icon) =~= kept.map_values(named));
}

/// What a pane knows of its terminal and its surroundings when it is drawn. `columns` and
/// `screen_lines` are those of the pane, which may be less than the window's. `search` is
/// the direction of a search and what of its text fits into the search line; cursors are
/// where they lie in the view, as far as they are above or in it; `grid_input` is what the
/// grid shows as typed, where that is read from it; `message` tells an error from a
/// warning and whether its bar has a close button; and `suggestion` and `has_completions`
/// are what the pane has to offer once `completion_step` was done.
#[derive(Debug)]
pub struct PaneInput {
    pub force_focus: Option<bool>,
    pub was_focused: bool,
    pub clear_first: bool,
    pub custom_background: Option<Rgb>,
    pub default_background: Rgb,
    pub alt_screen: bool,
    pub vi_mode: bool,
    pub vi_point: GridPoint,
    pub search: Option<(bool, String)>,
    pub selection: bool,
    pub cursor: Option<ViewPoint>,
    pub vi_cursor: Option<ViewPoint>,
    pub columns: usize,
    pub screen_lines: usize,
    pub window_columns: usize,
    pub window_lines: usize,
    pub display_offset: usize,
    pub total_lines: usize,
    pub reads_grid: bool,
    pub grid_input: Option<String>,
    pub first_background: Option<Rgb>,
    pub ime_enabled: bool,
    pub preedit: bool,
    pub message: Option<(bool, bool)>,
    pub highlighted: bool,
    pub suggestion: String,
    pub has_completions: bool,
}

/// What becomes of the completion: it is cleared, with or without the line it was for, or
/// looked for anew.
#[derive(Debug)]
pub enum CompletionStep {
    Clear,
    ClearLine,
    SuggestFor(String),
    SuggestTracked,
}

/// The search line: its text, the line of the window that it is drawn in and what fills
/// that line, the column of its caret, and whether the caret is drawn.
#[derive(Debug)]
pub struct SearchBar {
    pub text: String,
    pub line: usize,
    pub filled: String,
    pub column: usize,
    pub caret: bool,
}

/// A text at a place.
#[derive(Debug)]
pub struct PlacedText {
    pub point: ViewPoint,
    pub text: String,
}

/// Everything that is decided before a pane is drawn. The two flags on damage tell that the
/// whole of this frame and of the next one counts as changed.
#[derive(Debug)]
pub struct PanePlan {
    pub damage_frame: bool,
    pub damage_next_frame: bool,
    pub focused: bool,
    pub background: Rgb,
    pub clear: bool,
    pub scan_formulas: bool,
    pub reflow_formulas: bool,
    pub validate_hints: bool,
    pub vi_cursor: Option<ViewPoint>,
    pub edge_background: Option<Rgb>,
    pub indicator: Option<LineIndicator>,
    pub search: Option<SearchBar>,
    pub ime_point: Option<ViewPoint>,
    pub ime_on_footer: bool,
    pub message_line: Option<usize>,
    pub message_is_error: bool,
    pub suggestion: Option<PlacedText>,
    pub popup: Option<ViewPoint>,
    pub link_preview: bool,
}

/// A cell, where it is in the view.
pub open spec fn in_view(p: Option<ViewPoint>, lines: usize, columns: usize) -> Option<ViewPoint> {
    match p {
        Some(v) if v.line < lines && v.column < columns => p,
        _ => None,
    }
}

fn kept_in_view(p: Option<ViewPoint>, lines: usize, columns: usize) -> (r: Option<ViewPoint>)
    ensures
        r == in_view(p, lines, columns),
{
    match p {
        Some(v) => if v.line < lines && v.column < columns {
            p
        } else {
            None
        },
        None => None,
    }
}

impl PaneInput {
    /// What the view needs to hold anything, and what the terminal keeps: a line, a
    /// column, and a keyboard cursor that is not below the view.
    pub open spec fn wf(self) -> bool {
        &&& 0 < self.columns
        &&& 0 < self.window_columns
        &&& 0 < self.screen_lines <= i32::MAX
        &&& self.screen_lines < usize::MAX
        &&& 0 < self.total_lines
        &&& self.display_offset <= i32::MAX
        &&& i32::MIN < self.vi_point.line
        &&& self.vi_point.line < self.screen_lines
        &&& self.screen_lines - 1 - self.vi_point.line <= usize::MAX
    }

    /// Whether the completion has to stay away: full-screen programs, the keyboard cursor
    /// and a search own the screen.
    pub open spec fn suppressed(self) -> bool {
        self.alt_screen || self.vi_mode || self.search is Some
    }

    pub open spec fn cursor_shown(self) -> Option<ViewPoint> {
        in_view(self.cursor, self.screen_lines, self.columns)
    }

    pub open spec fn vi_shown(self) -> Option<ViewPoint> {
        if self.vi_mode {
            in_view(self.vi_cursor, self.screen_lines, self.columns)
        } else {
            None
        }
    }

    /// The search line.
    pub open spec fn search_text(self) -> Seq<char> {
        let (forward, text) = self.search->0;
        let label = search_label(forward);
        if label.len() > self.columns {
            label.take(self.columns as int)
        } else {
            (label + text@).push(' ')
        }
    }

    /// Whether the completion does what the screen asks for. Where the grid shows what was
    /// typed it is believed, and without a prompt there nothing is suggested.
    pub open spec fn completes(self, step: CompletionStep) -> bool {
        if self.suppressed() {
            step is Clear
        } else if !self.reads_grid {
            step is SuggestTracked
        } else {
            match self.grid_input {
                Some(line) => step == CompletionStep::SuggestFor(line),
                None => step is ClearLine,
            }
        }
    }

    /// Whether the completion step leaves nothing to offer.
    pub open spec fn cleared(self) -> bool {
        self.suppressed() || (self.reads_grid && self.grid_input is None)
    }

    /// The cells from the note to the edge of the window count as changed.
    pub open spec fn note_damaged(self, n: LineIndicator) -> bool {
        n.damage == (LineDamage {
            line: 0,
            left: n.column,
            right: (self.window_columns - 1) as usize,
        })
    }

    /// Whether the note about the line in the history is the one to show: that of the
    /// keyboard cursor, or of the view during a search. It stands at the window's edge.
    pub open spec fn indicates(self, i: Option<LineIndicator>) -> bool {
        if self.vi_mode {
            let line = self.screen_lines - 1 - self.vi_point.line;
            let at_top = self.vi_point.line == -self.display_offset;
            &&& i matches Some(n) && n.text@ == indicator_text(line as usize, self.total_lines)
            &&& i matches Some(n) && n.column == (if self.window_columns >= n.text@.len() {
                self.window_columns - n.text@.len()
            } else {
                0
            })
            &&& i matches Some(n) && n.drawn == (at_top ==> self.vi_point.column < n.column)
            &&& i matches Some(n) && self.note_damaged(n)
        } else if self.search is Some {
            &&& i matches Some(n) && n.text@ == indicator_text(
                self.display_offset,
                self.total_lines,
            )
            &&& i matches Some(n) && n.column == (if self.window_columns >= n.text@.len() {
                self.window_columns - n.text@.len()
            } else {
                0
            })
            &&& i matches Some(n) && n.drawn
            &&& i matches Some(n) && self.note_damaged(n)
        } else {
            i is None
        }
    }

    fn indicator(&self) -> (i: Option<LineIndicator>)
        requires
            self.wf(),
        ensures
            self.indicates(i),
    {
        if self.vi_mode {
            let below: i64 = self.screen_lines as i64 - 1 - self.vi_point.line as i64;
            let line: usize = below as usize;
            let top: i64 = -(self.display_offset as i64);
            let obstructed: Option<usize> = if self.vi_point.line as i64 == top {
                Some(self.vi_point.column)
            } else {
                None
            };
            Some(draw_line_indicator(line, self.total_lines, self.window_columns, obstructed))
        } else if self.search.is_some() {
            Some(
                draw_line_indicator(
                    self.display_offset,
                    self.total_lines,
                    self.window_columns,
                    None,
                ),
            )
        } else {
            None
        }
    }

    /// Whether the search line is the one to show.
    pub open spec fn searches(self, bar: Option<SearchBar>) -> bool {
        if self.search is Some {
            let text = self.search_text();
            let gap = if text.len() < self.window_columns {
                (self.window_columns - text.len()) as nat
            } else {
                0
            };
            bar matches Some(b) && b.text@ == text && b.line == self.window_lines && b.filled@
                == text + repeated(' ', gap) && b.column == text.len() - 1 && b.caret
                == !self.preedit
        } else {
            bar is None
        }
    }

    fn search_bar(&self) -> (bar: Option<SearchBar>)
        requires
            self.wf(),
        ensures
            self.searches(bar),
    {
        match &self.search {
            Some((forward, shortened)) => {
                let text = format_search(shortened.as_str(), *forward, self.columns);
                let len: usize = chars_of(text.as_str()).len();
                let filled = draw_search(text.as_str(), self.window_columns);
                proof {
                    assert(text@ + repeated(' ', 0) =~= text@);
                }
                Some(
                    SearchBar {
                        text,
                        line: self.window_lines,
                        filled,
                        column: len - 1,
                        caret: !self.preedit,
                    },
                )
            },
            None => None,
        }
    }

    /// Where the input method writes: in the search line, at the keyboard cursor, or at
    /// the cursor.
    pub open spec fn ime_place(self) -> Option<ViewPoint> {
        if self.search is Some {
            Some(
                ViewPoint {
                    line: self.screen_lines,
                    column: (self.search_text().len() - 1) as usize,
                },
            )
        } else if self.vi_shown() is Some {
            self.vi_shown()
        } else {
            self.cursor_shown()
        }
    }

    /// Whether the suggestion is the one to show: behind the cursor, as far as the line
    /// goes, unless something is composed or the completion was cleared.
    pub open spec fn suggests(self, s: Option<PlacedText>) -> bool {
        match self.cursor_shown() {
            Some(p) if self.suggestion@.len() > 0 && !self.preedit && !self.cleared() => {
                let room = self.columns - p.column;
                &&& s matches Some(t) && t.point == p && t.text@ == (if self.suggestion@.len()
                    <= room {
                    self.suggestion@
                } else {
                    self.suggestion@.take(room)
                })
            },
            _ => s is None,
        }
    }

    fn placed_suggestion(&self) -> (s: Option<PlacedText>)
        ensures
            self.suggests(s),
    {
        let shown: Option<ViewPoint> = kept_in_view(
            self.cursor,
            self.screen_lines,
            self.columns,
        );
        match shown {
            Some(point) => {
                let chars = chars_of(self.suggestion.as_str());
                if chars.len() == 0 || self.preedit || self.is_cleared() {
                    return None;
                }
                let room: usize = self.columns - point.column;
                let n: usize = if chars.len() <= room {
                    chars.len()
                } else {
                    room
                };
                proof {
                    assert(chars@.subrange(0, n as int) =~= self.suggestion@.take(n as int));
                    if n == chars@.len() {
                        assert(self.suggestion@.take(n as int) =~= self.suggestion@);
                    }
                }
                Some(PlacedText { point, text: text_range(&chars, 0, n) })
            },
            None => None,
        }
    }

    fn is_cleared(&self) -> (r: bool)
        ensures
            r == self.cleared(),
    {
        self.alt_screen || self.vi_mode || self.search.is_some() || (self.reads_grid
            && self.grid_input.is_none())
    }

    /// What becomes of the completion before the pane is drawn.
    pub fn completion_step(&self) -> (step: CompletionStep)
        ensures
            self.completes(step),
    {
        if self.alt_screen || self.vi_mode || self.search.is_some() {
            return CompletionStep::Clear;
        }
        if !self.reads_grid {
            return CompletionStep::SuggestTracked;
        }
        match &self.grid_input {
            Some(line) => CompletionStep::SuggestFor(line.clone()),
            None => CompletionStep::ClearLine,
        }
    }

    /// Whether `p` is what has to be drawn.
    pub open spec fn planned(self, p: PanePlan) -> bool {
        &&& p.damage_frame
        &&& p.damage_next_frame
        &&& p.focused == match self.force_focus {
            Some(f) => f,
            None => self.was_focused,
        }
        &&& p.background == match self.custom_background {
            Some(c) => c,
            None => self.default_background,
        }
        &&& p.clear == self.clear_first
        &&& p.scan_formulas == (!self.vi_mode && self.search is None && !self.selection)
        &&& p.reflow_formulas == !self.alt_screen
        &&& p.validate_hints == (self.force_focus != Some(false))
        &&& p.vi_cursor == self.vi_shown()
        &&& p.edge_background == (if self.alt_screen {
            self.first_background
        } else {
            None
        })
        &&& self.indicates(p.indicator)
        &&& self.searches(p.search)
        &&& p.ime_point == (if self.ime_enabled {
            self.ime_place()
        } else {
            None
        })
        &&& p.ime_on_footer == (self.search is Some)
        &&& p.message_line == (if self.message is Some {
            Some(
                if self.search is Some {
                    (self.screen_lines + 1) as usize
                } else {
                    self.screen_lines
                },
            )
        } else {
            None
        })
        &&& p.message_is_error == (self.message matches Some((error, _)) && error)
        &&& self.suggests(p.suggestion)
        &&& p.popup == (if self.has_completions && !self.preedit && !self.cleared() {
            self.cursor_shown()
        } else {
            None
        })
        &&& p.link_preview == self.highlighted
    }

    /// Decides what of a terminal is drawn and what over it, after `completion_step` was
    /// done. Without a message its bar has
    /// no close button either.
    pub fn draw_pane(&self, page: &mut PageState) -> (p: PanePlan)
        requires
            self.wf(),
        ensures
            self.planned(p),
            *final(page) == match self.message {
                Some((_, close)) => PageState { message_close: close, ..*old(page) },
                None => PageState {
                    message_close: false,
                    message_close_hover: false,
                    ..*old(page)
                },
            },
    {
        let cursor: Option<ViewPoint> = kept_in_view(
            self.cursor,
            self.screen_lines,
            self.columns,
        );
        let vi_cursor: Option<ViewPoint> = if self.vi_mode {
            kept_in_view(self.vi_cursor, self.screen_lines, self.columns)
        } else {
            None
        };
        let search = self.search_bar();
        let ime_point: Option<ViewPoint> = if !self.ime_enabled {
            None
        } else {
            match &search {
                Some(bar) => Some(ViewPoint { line: self.screen_lines, column: bar.column }),
                None => if vi_cursor.is_some() {
                    vi_cursor
                } else {
                    cursor
                },
            }
        };
        let mut message_line: Option<usize> = None;
        let mut message_is_error: bool = false;
        match self.message {
            Some((error, close)) => {
                message_line = Some(
                    if self.search.is_some() {
                        self.screen_lines + 1
                    } else {
                        self.screen_lines
                    },
                );
                message_is_error = error;
                page.message_close = close;
            },
            None => {
                page.message_close = false;
                page.message_close_hover = false;
            },
        }
        let validate_hints: bool = match self.force_focus {
            Some(f) => f,
            None => true,
        };
        PanePlan {
            damage_frame: true,
            damage_next_frame: true,
            focused: match self.force_focus {
                Some(f) => f,
                None => self.was_focused,
            },
            background: match self.custom_background {
                Some(c) => c,
                None => self.default_background,
            },
            clear: self.clear_first,
            scan_formulas: !self.vi_mode && self.search.is_none() && !self.selection,
            reflow_formulas: !self.alt_screen,
            validate_hints,
            vi_cursor,
            edge_background: if self.alt_screen {
                self.first_background
            } else {
                None
            },
            indicator: self.indicator(),
            ime_on_footer: self.search.is_some(),
            search,
            ime_point,
            message_line,
            message_is_error,
            suggestion: self.placed_suggestion(),
            popup: if self.has_completions && !self.preedit && !self.is_cleared() {
                cursor
            } else {
                None
            },
            link_preview: self.highlighted,
        }
    }
}

/// Nothing is suggested or listed over a full-screen program, under the keyboard cursor or
/// during a search, nor where the step before clears the completion.
pub proof fn cleared_completion_is_not_drawn(input: PaneInput, step: CompletionStep, p: PanePlan)
    requires
        input.completes(step),
        input.planned(p),
    ensures
        input.suppressed() ==> step is Clear,
        step is Clear || step is ClearLine ==> p.suggestion is None && p.popup is None,
{
}

/// The icons that lie in the view.
pub open spec fn icons_in_view(icons: Seq<PowerlineIcon>, screen_lines: usize) -> Seq<
    PowerlineIcon,
>
    decreases icons.len(),
{
    if icons.len() == 0 {
        Seq::empty()
    } else if icons.last().point.line < screen_lines {
        icons_in_view(icons.drop_last(), screen_lines).push(icons.last())
    } else {
        icons_in_view(icons.drop_last(), screen_lines)
    }
}

/// The icons of the prompt that are drawn: those in the view.
pub fn draw_powerline_icons(icons: &Vec<PowerlineIcon>, screen_lines: usize) -> (r: Vec<
    PowerlineIcon,
>)
    ensures
        r@ == icons_in_view(icons@, screen_lines),
{
    let mut r: Vec<PowerlineIcon> = Vec::new();
    let mut i: usize = 0;
    proof {
        assert(r@ =~= icons_in_view(icons@.take(0), screen_lines));
    }
    while i < icons.len()
        invariant
            i <= icons@.len(),
            r@ == icons_in_view(icons@.take(i as int), screen_lines),
        decreases icons@.len() - i,
    {
        proof {
            assert(icons@.take(i + 1).drop_last() =~= icons@.take(i as int));
        }
        if icons[i].point.line < screen_lines {
            r.push(icons[i]);
        }
        i += 1;
    }
    proof {
        assert(icons@.take(i as int) =~= icons@);
    }
    r
}

/// Exactly the icons above the bottom of the view are drawn, in their order.
pub proof fn icons_in_view_are_drawn(icons: Seq<PowerlineIcon>, screen_lines: usize)
    ensures
        icons_in_view(icons, screen_lines) == icons.filter(
            |i: PowerlineIcon| i.point.line < screen_lines,
        ),
    decreases icons.len(),
{
    reveal(Seq::filter);
    if icons.len() > 0 {
        icons_in_view_are_drawn(icons.drop_last(), screen_lines);
    } else {
        assert(icons_in_view(icons, screen_lines) =~= icons);
    }
}

/// A picture in the output: the line of the history that it hangs on, and its height in
/// lines.
#[derive(Clone, Copy, Debug, PartialEq, Eq, Structural)]
pub struct InlineImage {
    pub id: u64,
    pub abs_line: usize,
    pub rows: usize,
}

/// Whether any of a picture is still in the history.
pub open spec fn image_kept(image: InlineImage, scrolled_out: usize) -> bool {
    image.abs_line + image.rows >= scrolled_out
}

/// The pictures that are still in the history.
pub open spec fn kept_images(images: Seq<InlineImage>, scrolled_out: usize) -> Seq<InlineImage>
    decreases images.len(),
{
    if images.len() == 0 {
        Seq::empty()
    } else if image_kept(images.last(), scrolled_out) {
        kept_images(images.drop_last(), scrolled_out).push(images.last())
    } else {
        kept_images(images.drop_last(), scrolled_out)
    }
}

/// Drops the pictures that scrolled out of the history for good.
pub fn prune_images(images: &Vec<InlineImage>, scrolled_out: usize) -> (r: Vec<InlineImage>)
    ensures
        r@ == kept_images(images@, scrolled_out),
{
    let mut r: Vec<InlineImage> = Vec::new();
    let mut i: usize = 0;
    proof {
        assert(images@.take(0) =~= Seq::<InlineImage>::empty());
    }
    while i < images.len()
        invariant
            i <= images@.len(),
            r@ == kept_images(images@.take(i as int), scrolled_out),
        decreases images@.len() - i,
    {
        proof {
            assert(images@.take(i + 1).drop_last() =~= images@.take(i as int));
        }
        let image: InlineImage = images[i];
        if image.abs_line >= scrolled_out || image.rows >= scrolled_out - image.abs_line {
            r.push(image);
        }
        i += 1;
    }
    proof {
        assert(images@.take(i as int) =~= images@);
    }
    r
}

/// A picture stays while its last line has not left the history, and goes for good after
/// that; those that stay keep their order.
pub proof fn pictures_in_history_stay(images: Seq<InlineImage>, scrolled_out: usize)
    ensures
        kept_images(images, scrolled_out) == images.filter(
            |i: InlineImage| i.abs_line + i.rows >= scrolled_out,
        ),
    decreases images.len(),
{
    reveal(Seq::filter);
    if images.len() > 0 {
        pictures_in_history_stay(images.drop_last(), scrolled_out);
    } else {
        assert(kept_images(images, scrolled_out) =~= images);
    }
}

/// The lines of the history that lie above the view; nothing where the view is at the
/// bottom or there is no history, so that no scroll bar is shown.
pub open spec fn lines_above(
    display_offset: usize,
    total_lines: usize,
    screen_lines: usize,
) -> Option<int> {
    if display_offset == 0 || total_lines <= screen_lines {
        None
    } else {
        Some(total_lines - screen_lines - display_offset)
    }
}

/// The lines of the history that lie above the view, where a scroll bar is shown.
pub fn scrollbar_lines_above(display_offset: usize, total_lines: usize, screen_lines: usize) -> (r:
    Option<usize>)
    requires
        display_offset + screen_lines <= total_lines || total_lines <= screen_lines,
    ensures
        match r {
            Some(n) => lines_above(display_offset, total_lines, screen_lines) == Some(n as int),
            None => lines_above(display_offset, total_lines, screen_lines) is None,
        },
{
    if display_offset == 0 || total_lines <= screen_lines {
        None
    } else {
        Some(total_lines - screen_lines - display_offset)
    }
}

/// How far the view is scrolled back where `above` lines of the history lie above it.
pub open spec fn offset_below(above: int, total_lines: usize, screen_lines: usize) -> int {
    let history = if total_lines > screen_lines {
        total_lines - screen_lines
    } else {
        0
    };
    if above < history {
        history - above
    } else {
        0
    }
}

/// How far the view is scrolled back when its scroll bar is dragged so that `above` lines
/// of the history lie above it.
pub fn scrollbar_target_offset(above: usize, total_lines: usize, screen_lines: usize) -> (r: usize)
    ensures
        r == offset_below(above as int, total_lines, screen_lines),
{
    let history: usize = total_lines.saturating_sub(screen_lines);
    history.saturating_sub(above)
}

/// Dragging the scroll bar to where it is scrolls nowhere.
pub proof fn scroll_bar_agrees_with_itself(
    display_offset: usize,
    total_lines: usize,
    screen_lines: usize,
)
    requires
        display_offset + screen_lines <= total_lines,
    ensures
        lines_above(display_offset, total_lines, screen_lines) matches Some(n) ==> offset_below(
            n,
            total_lines,
            screen_lines,
        ) == display_offset,
{
}

/// A plan shows nothing that the pane does not have, and puts nothing outside it. The
/// suggestion is the beginning of what there is to suggest and ends with the line at the
/// latest; it is cut only where the line is. The list opens at the cursor.
pub proof fn suggestion_fits_behind_the_cursor(input: PaneInput, p: PanePlan)
    requires
        input.planned(p),
    ensures
        p.suggestion matches Some(t) ==> {
            let n = t.text@.len() as int;
            &&& input.cursor == Some(t.point)
            &&& t.point.line < input.screen_lines
            &&& 0 < n <= input.suggestion@.len()
            &&& t.text@ == input.suggestion@.take(n)
            &&& t.point.column + n <= input.columns
            &&& n < input.suggestion@.len() ==> t.point.column + n == input.columns
        },
        p.popup is Some ==> p.popup == input.cursor && p.popup->0.line < input.screen_lines
            && p.popup->0.column < input.columns && input.has_completions,
        ({
            let offers = !input.preedit && !input.alt_screen && !input.vi_mode
                && input.search is None && (input.reads_grid ==> input.grid_input is Some) && (
            input.cursor matches Some(c) && c.line < input.screen_lines && c.column
                < input.columns);
            &&& p.suggestion is Some <==> offers && input.suggestion@.len() > 0
            &&& p.popup is Some <==> offers && input.has_completions
        }),
{
    if input.cursor_shown() is Some {
        assert(input.suggestion@.take(input.suggestion@.len() as int) =~= input.suggestion@);
    }
}

/// The keyboard cursor is drawn in its mode, where it lies in the view. The input method
/// writes behind the text of a search, else at that cursor, else at the cursor of the
/// terminal, and nowhere while it is off.
pub proof fn cursors_of_a_pane(input: PaneInput, p: PanePlan)
    requires
        input.planned(p),
        input.wf(),
    ensures
        p.vi_cursor is Some <==> input.vi_mode && (input.vi_cursor matches Some(v) && v.line
            < input.screen_lines && v.column < input.columns),
        p.vi_cursor is Some ==> p.vi_cursor == input.vi_cursor,
        !input.ime_enabled ==> p.ime_point is None,
        input.ime_enabled && input.search is Some ==> (p.ime_point matches Some(i) && i.line
            == input.screen_lines && (p.search matches Some(b) && b.column == i.column)),
        input.ime_enabled && input.search is None && p.vi_cursor is Some ==> p.ime_point
            == p.vi_cursor,
        input.ime_enabled && input.search is None && p.vi_cursor is None ==> if (
        input.cursor matches Some(c) && c.line < input.screen_lines && c.column < input.columns) {
            p.ime_point == input.cursor
        } else {
            p.ime_point is None
        },
        p.ime_on_footer <==> p.search is Some,
{
    reveal_strlit("Search: ");
    reveal_strlit("Backward Search: ");
    if input.search is Some {
        let (forward, text) = input.search->0;
        assert(search_label(forward).len() > 0);
        assert(0 < input.search_text().len());
        assert(p.search is Some);
        let b = p.search->0;
        assert(b.column == input.search_text().len() - 1);
    }
}

/// The search line is below the grid: its label, what is searched for and a blank for the
/// caret, filled up with blanks to the width of the window. Messages come below it.
pub proof fn search_line_stands_below_the_grid(input: PaneInput, p: PanePlan)
    requires
        input.planned(p),
        input.wf(),
    ensures
        p.search is Some <==> input.search is Some,
        p.search matches Some(b) ==> {
            let (forward, text) = input.search->0;
            &&& b.line == input.window_lines
            &&& b.filled@.len() >= input.window_columns && b.filled@.len() >= b.text@.len()
            &&& b.filled@.len() == input.window_columns || b.filled@ == b.text@
            &&& b.filled@.take(b.text@.len() as int) == b.text@
            &&& forall|i: int| b.text@.len() <= i < b.filled@.len() ==> #[trigger] b.filled@[i] == ' '
            &&& b.column == b.text@.len() - 1
            &&& b.caret <==> !input.preedit
            &&& forward && input.columns >= 8 ==> b.text@ == "Search: "@ + text@ + seq![' ']
            &&& !forward && input.columns >= 17 ==> b.text@ == "Backward Search: "@ + text@ + seq![
                ' ',
            ]
        },
        p.message_line is Some <==> input.message is Some,
        p.message_line matches Some(n) ==> n == input.screen_lines + (if input.search is Some {
            1int
        } else {
            0
        }),
        p.message_is_error ==> input.message is Some,
{
    reveal_strlit("Search: ");
    reveal_strlit("Backward Search: ");
    if input.search is Some {
        let (forward, text) = input.search->0;
        let b = p.search->0;
        assert(b.filled@.take(b.text@.len() as int) =~= b.text@);
        assert("Search: "@ + text@ + seq![' '] =~= ("Search: "@ + text@).push(' '));
        assert("Backward Search: "@ + text@ + seq![' '] =~= ("Backward Search: "@ + text@).push(' '));
    }
}

/// A search or the keyboard cursor shows where in the history it is, in the right corner of
/// the window. The note makes way for the keyboard cursor alone.
pub proof fn history_note_stands_in_the_corner(input: PaneInput, p: PanePlan)
    requires
        input.planned(p),
        input.wf(),
    ensures
        p.indicator is Some <==> input.vi_mode || input.search is Some,
        p.indicator matches Some(n) ==> {
            &&& n.text@.len() <= input.window_columns ==> n.column + n.text@.len()
                == input.window_columns
            &&& n.text@.len() > input.window_columns ==> n.column == 0
            &&& n.damage.line == 0 && n.damage.left == n.column && n.damage.right
                == input.window_columns - 1
            &&& !n.drawn ==> input.vi_mode && input.vi_point.column >= n.column
                && input.vi_point.line == -input.display_offset
            &&& !input.vi_mode ==> n.text@ == indicator_text(
                input.display_offset,
                input.total_lines,
            )
            &&& input.vi_mode && input.screen_lines - 1 - input.vi_point.line
                == input.display_offset ==> n.text@ == indicator_text(
                input.display_offset,
                input.total_lines,
            )
        },
{
}

/// A pane can be told to look focused or not, and keeps its look otherwise. Formulas are
/// looked for only while nobody searches, selects or walks over the text.
pub proof fn look_of_a_pane(input: PaneInput, p: PanePlan)
    requires
        input.planned(p),
    ensures
        input.force_focus == Some(true) ==> p.focused && p.validate_hints,
        input.force_focus == Some(false) ==> !p.focused && !p.validate_hints,
        input.force_focus is None ==> p.focused == input.was_focused && p.validate_hints,
        input.custom_background is None ==> p.background == input.default_background,
        input.custom_background is Some ==> input.custom_background == Some(p.background),
        p.scan_formulas <==> !(input.vi_mode || input.search is Some || input.selection),
        p.reflow_formulas <==> !input.alt_screen,
        input.alt_screen ==> p.edge_background == input.first_background,
        !input.alt_screen ==> p.edge_background is None,
        p.clear <==> input.clear_first,
        p.link_preview <==> input.highlighted,
        p.damage_frame && p.damage_next_frame,
{
}

/// The history is the lines above the view, the view, and the lines below it. The bar is
/// shown unless the view is at the bottom.
pub proof fn history_is_above_in_and_below_the_view(
    display_offset: usize,
    total_lines: usize,
    screen_lines: usize,
)
    ensures
        lines_above(display_offset, total_lines, screen_lines) matches Some(n) ==> n
            + screen_lines + display_offset == total_lines,
        lines_above(display_offset, total_lines, screen_lines) is None <==> display_offset == 0
            || total_lines <= screen_lines,
{
}

/// Composing the cells of a grid draws each cell that has a place once, there and in order,
/// with its own character unless a formula or an icon stands for it.
pub proof fn composed_cells_show_the_grid(cells: Vec<PaneCell>, ranges: Vec<ClickRange>, r: PaneCells)
    requires
        call_ensures(compose_cells, (&cells, &ranges), r),
    ensures
        r.cells@.len() == cells@.filter(|c: PaneCell| c.projected is Some).len(),
        forall|k: int|
            #![trigger cells@[k]]
            0 <= k < cells@.len() && cells@[k].projected is Some ==> {
                let c = cells@[k];
                let d = r.cells@[drawn_before(cells@, k)];
                &&& 0 <= drawn_before(cells@, k) < r.cells@.len()
                &&& c.projected == Some(d.point)
                &&& !c.formula && c.character != NEBULA_FOLDER_ICON_MARKER && c.character
                    != NEBULA_GIT_BRANCH_ICON_MARKER ==> d.character == c.character
                &&& c.formula || c.character == NEBULA_FOLDER_ICON_MARKER || c.character
                    == NEBULA_GIT_BRANCH_ICON_MARKER ==> d.character == ' '
                &&& d.fg == c.fg
                &&& !c.formula ==> d.extra == c.extra && d.lines.strikeout == c.lines.strikeout
            },
        r.damage@ == cells@.filter(|c: PaneCell| c.projected is Some && c.highlighted).map_values(
            |c: PaneCell| c.source,
        ),
        r.icons@.len() == cells@.filter(
            |c: PaneCell|
                c.projected is Some && !c.formula && (c.character == NEBULA_FOLDER_ICON_MARKER
                    || c.character == NEBULA_GIT_BRANCH_ICON_MARKER),
        ).len(),
{
    lemma_drawn_at(cells@, ranges@, cells@.len() as int);
    markers_become_icons(cells@);
    assert(cells@.take(cells@.len() as int) =~= cells@);
}

/// Icons are drawn above the bottom of the view, and pictures stay while they are in the
/// history, in their order and as they are.
pub proof fn drawn_icons_and_kept_pictures(
    icons: Vec<PowerlineIcon>,
    screen_lines: usize,
    r: Vec<PowerlineIcon>,
    images: Vec<InlineImage>,
    scrolled_out: usize,
    kept: Vec<InlineImage>,
)
    requires
        call_ensures(draw_powerline_icons, (&icons, screen_lines), r),
        call_ensures(prune_images, (&images, scrolled_out), kept),
    ensures
        r@ == icons@.filter(|i: PowerlineIcon| i.point.line < screen_lines),
        kept@ == images@.filter(|i: InlineImage| i.abs_line + i.rows >= scrolled_out),
{
    icons_in_view_are_drawn(icons@, screen_lines);
    pictures_in_history_stay(images@, scrolled_out);
}

/// Without a message its bar has no close button, and with one it has what it is told to.
pub proof fn message_bar_has_its_close_button(input: PaneInput, page: &mut PageState, p: PanePlan)
    requires
        call_ensures(PaneInput::draw_pane, (&input, page), p),
    ensures
        input.planned(p),
        input.message is None ==> !final(page).message_close && !final(page).message_close_hover,
        input.message matches Some((error, close)) ==> final(page).message_close == close
            && final(page).message_close_hover == old(page).message_close_hover
            && p.message_is_error == error,
        final(page).open == old(page).open && final(page).section == old(page).section
            && final(page).dropdown == old(page).dropdown && final(page).scroll
            == old(page).scroll,
{
}

/// The grid tells what was typed where it is read; without a prompt there, and where
/// something else owns the screen, the completion goes.
pub proof fn completion_follows_the_grid(input: PaneInput, step: CompletionStep)
    requires
        call_ensures(PaneInput::completion_step, (&input,), step),
    ensures
        step is Clear <==> input.alt_screen || input.vi_mode || input.search is Some,
        !(step is Clear) ==> (step is SuggestTracked <==> !input.reads_grid),
        !(step is Clear) && input.reads_grid ==> (step is ClearLine <==> input.grid_input is None),
        step matches CompletionStep::SuggestFor(line) ==> input.grid_input == Some(line),
{
}

/// Dragging the scroll bar shows the history from where the bar says, and never scrolls
/// beyond it; the bar tells how much lies above.
pub proof fn scroll_bar_shows_the_history(
    above: usize,
    total_lines: usize,
    screen_lines: usize,
    r: usize,
)
    requires
        call_ensures(scrollbar_target_offset, (above, total_lines, screen_lines), r),
    ensures
        above + screen_lines <= total_lines ==> above + screen_lines + r == total_lines,
        above + screen_lines > total_lines ==> r == 0,
{
}

} // verus!
