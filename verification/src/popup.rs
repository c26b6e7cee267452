//! Layout of the completion list beside the cursor.
use crate::cells::{is_padded, nebula_pad_to_cells};
use crate::lang::UiLanguage;
use crate::text::{cells, text_cols};
use vstd::prelude::*;

verus! {

/// Where a completion comes from.
#[derive(Clone, Copy, Debug, PartialEq, Eq, Structural)]
pub enum NebulaCompletionKind {
    History,
    Command,
    Dir,
    File,
}

/// One entry of the completion list.
#[derive(Debug)]
pub struct NebulaCompletionItem {
    pub kind: NebulaCompletionKind,
    pub label: String,
}

/// The grid that the list is drawn on and the cell of the cursor.
#[derive(Clone, Copy, Debug, PartialEq, Eq, Structural)]
pub struct PopupGrid {
    pub columns: usize,
    pub screen_lines: usize,
    pub anchor_line: usize,
    pub anchor_column: usize,
}

/// One drawn row: its line, the text of the label from the first column of the list,
/// the column and text of the tag.
#[derive(Debug)]
pub struct PopupRow {
    pub line: usize,
    pub label: String,
    pub tag_col: usize,
    pub tag: String,
    pub selected: bool,
}

/// Where the list stands: its first line and column, its size, the first item that it
/// shows and the columns of its labels and tags.
#[derive(Clone, Copy, Debug, PartialEq, Eq, Structural)]
pub struct PopupSpan {
    pub start_line: usize,
    pub start_col: usize,
    pub width: usize,
    pub row_count: usize,
    pub offset: usize,
    pub label_w: usize,
    pub tag_w: usize,
}

/// The list as it is drawn. `selected_row` is the row of the highlight.
#[derive(Debug)]
pub struct PopupLayout {
    pub span: PopupSpan,
    pub selected_row: Option<usize>,
    pub rows: Vec<PopupRow>,
}

impl NebulaCompletionKind {
    pub open spec fn tag_text(self, language: UiLanguage) -> Seq<char> {
        match self {
            NebulaCompletionKind::History => language.picked("历史"@, "hist"@),
            NebulaCompletionKind::Command => language.picked("命令"@, "cmd"@),
            NebulaCompletionKind::Dir => language.picked("目录"@, "dir"@),
            NebulaCompletionKind::File => language.picked("文件"@, "file"@),
        }
    }

    /// The word at the right edge of a row.
    pub fn tag(self, language: UiLanguage) -> (s: &'static str)
        ensures
            s@ == self.tag_text(language),
            s@.len() <= 4,
    {
        proof {
            reveal_strlit("历史");
            reveal_strlit("命令");
            reveal_strlit("目录");
            reveal_strlit("文件");
            reveal_strlit("hist");
            reveal_strlit("cmd");
            reveal_strlit("dir");
            reveal_strlit("file");
        }
        match self {
            NebulaCompletionKind::History => language.pick("历史", "hist"),
            NebulaCompletionKind::Command => language.pick("命令", "cmd"),
            NebulaCompletionKind::Dir => language.pick("目录", "dir"),
            NebulaCompletionKind::File => language.pick("文件", "file"),
        }
    }

    pub open spec fn icon_char(self) -> char {
        match self {
            NebulaCompletionKind::History => '↶',
            NebulaCompletionKind::Command => '›',
            NebulaCompletionKind::Dir => '/',
            NebulaCompletionKind::File => '·',
        }
    }

    /// The sign before a label.
    pub fn icon(self) -> (c: char)
        ensures
            c == self.icon_char(),
    {
        match self {
            NebulaCompletionKind::History => '↶',
            NebulaCompletionKind::Command => '›',
            NebulaCompletionKind::Dir => '/',
            NebulaCompletionKind::File => '·',
        }
    }
}

pub open spec fn min_of(a: int, b: int) -> int {
    if a <= b {
        a
    } else {
        b
    }
}

/// Lines between the cursor and the bottom of the grid.
pub open spec fn lines_below(g: PopupGrid) -> int {
    if g.screen_lines >= g.anchor_line + 1 {
        g.screen_lines - (g.anchor_line + 1)
    } else {
        0
    }
}

/// How many rows are shown, and on which line the first one stands: below the cursor
/// where they all fit or where there is at least as much room as above, else above.
pub open spec fn popup_place(count: int, g: PopupGrid) -> (int, int) {
    let want = min_of(count, 8);
    let below = lines_below(g);
    if below >= want || below >= g.anchor_line {
        (min_of(want, below), g.anchor_line + 1)
    } else {
        (min_of(want, g.anchor_line as int), g.anchor_line - min_of(want, g.anchor_line as int))
    }
}

/// The first item that is shown: the selected one is never below the last row.
pub open spec fn popup_offset(count: int, selected: Option<usize>, rows: int) -> int {
    match selected {
        Some(i) if i < count && i >= rows => i + 1 - rows,
        _ => 0,
    }
}

/// The widest label among the items `from..to`.
pub open spec fn widest_label(items: Seq<NebulaCompletionItem>, from: int, to: int) -> nat
    decreases to - from,
{
    if to <= from {
        0
    } else {
        let rest = widest_label(items, from, to - 1);
        let w = cells(items[to - 1].label@);
        if w > rest {
            w
        } else {
            rest
        }
    }
}

/// The widest tag among the items `from..to`.
pub open spec fn widest_tag(
    items: Seq<NebulaCompletionItem>,
    language: UiLanguage,
    from: int,
    to: int,
) -> nat
    decreases to - from,
{
    if to <= from {
        0
    } else {
        let rest = widest_tag(items, language, from, to - 1);
        let w = cells(items[to - 1].kind.tag_text(language));
        if w > rest {
            w
        } else {
            rest
        }
    }
}

/// First column and width of a list that wants `full` columns: it starts at the cursor
/// and slides left as far as it must, and is cut only where the grid is narrower.
pub open spec fn popup_span(full: int, g: PopupGrid) -> (int, int) {
    let avail = g.columns - g.anchor_column;
    if full > avail {
        let slide = min_of(full - avail, g.anchor_column as int);
        (g.anchor_column - slide, min_of(full, avail + slide))
    } else {
        (g.anchor_column as int, full)
    }
}

/// Whether there is a list to draw.
pub open spec fn popup_shown(
    items: Seq<NebulaCompletionItem>,
    selected: Option<usize>,
    g: PopupGrid,
    language: UiLanguage,
) -> bool {
    let (rows, start_line) = popup_place(items.len() as int, g);
    let offset = popup_offset(items.len() as int, selected, rows);
    let tag_w = widest_tag(items, language, offset, offset + rows);
    let full = widest_label(items, offset, offset + rows) + tag_w + 4;
    let (start_col, width) = popup_span(full as int, g);
    &&& g.columns >= 12
    &&& g.screen_lines >= 2
    &&& rows > 0
    &&& width > tag_w + 4
}

/// A label as it is drawn: the icon, a space, the text over one column more than the
/// label's own.
pub open spec fn label_cells(icon: char, text: Seq<char>, label_w: nat, out: Seq<char>) -> bool {
    exists|t: Seq<char>| #[trigger]
        is_padded(text, label_w + 1, t) && out == seq![icon, ' '] + t
}

/// A tag as it is drawn: the text over the columns of the widest, then a space.
pub open spec fn tag_cells(text: Seq<char>, tag_w: nat, out: Seq<char>) -> bool {
    exists|t: Seq<char>| #[trigger] is_padded(text, tag_w, t) && out == t.push(' ')
}

/// One drawn row shows the item behind it.
pub open spec fn popup_row_shows(
    row: PopupRow,
    item: NebulaCompletionItem,
    k: int,
    l: PopupSpan,
    selected: Option<usize>,
    language: UiLanguage,
) -> bool {
    &&& row.line == l.start_line + k
    &&& row.tag_col == l.start_col + 1 + l.label_w + 2
    &&& row.selected == (selected == Some((l.offset + k) as usize))
    &&& label_cells(item.kind.icon_char(), item.label@, l.label_w as nat, row.label@)
    &&& tag_cells(item.kind.tag_text(language), l.tag_w as nat, row.tag@)
}

/// The layout belongs to these items on this grid.
pub open spec fn popup_matches(
    l: PopupLayout,
    items: Seq<NebulaCompletionItem>,
    selected: Option<usize>,
    g: PopupGrid,
    language: UiLanguage,
) -> bool {
    let (rows, start_line) = popup_place(items.len() as int, g);
    let offset = popup_offset(items.len() as int, selected, rows);
    let tag_w = widest_tag(items, language, offset, offset + rows);
    let full = widest_label(items, offset, offset + rows) + tag_w + 4;
    let (start_col, width) = popup_span(full as int, g);
    &&& l.span.row_count == rows
    &&& l.span.start_line == start_line
    &&& l.span.offset == offset
    &&& l.span.tag_w == tag_w
    &&& l.span.start_col == start_col
    &&& l.span.width == width
    &&& l.span.label_w == width - (tag_w + 4)
    &&& l.selected_row == (match selected {
        Some(i) if i < items.len() => Some((i - offset) as usize),
        _ => None,
    })
    &&& l.rows@.len() == min_of(rows, if g.screen_lines > start_line {
        g.screen_lines - start_line
    } else {
        0
    })
    &&& forall|k: int|
        0 <= k < l.rows@.len() ==> popup_row_shows(
            #[trigger] l.rows@[k],
            items[offset + k],
            k,
            l.span,
            selected,
            language,
        )
}

/// A list that is drawn stays on the grid: it ends before the right edge and, where the
/// cursor is on the grid, at or above the last line; its tags end within it; and a
/// selected item is among the rows.
pub proof fn popup_stays_on_grid(
    l: PopupLayout,
    items: Seq<NebulaCompletionItem>,
    selected: Option<usize>,
    g: PopupGrid,
    language: UiLanguage,
)
    requires
        g.anchor_column <= g.columns,
        popup_shown(items, selected, g, language),
        popup_matches(l, items, selected, g, language),
    ensures
        l.span.start_col + l.span.width <= g.columns,
        l.span.start_col + 1 + l.span.label_w + 2 + l.span.tag_w + 1 == l.span.start_col + l.span.width,
        l.span.start_col <= g.anchor_column,
        g.anchor_line < g.screen_lines ==> l.span.start_line + l.span.row_count <= g.screen_lines,
        l.span.start_line + l.span.row_count <= g.anchor_line || l.span.start_line > g.anchor_line,
        selected matches Some(i) ==> i < items.len() ==> l.span.offset <= i < l.span.offset + l.span.row_count,
        l.span.offset + l.span.row_count <= items.len(),
{
}

/// Lays out the completion list, or gives `None` where there is no room or nothing to
/// show.
pub fn draw_completion_popup(
    items: &Vec<NebulaCompletionItem>,
    selected: Option<usize>,
    g: PopupGrid,
    language: UiLanguage,
) -> (r: Option<PopupLayout>)
    requires
        g.anchor_column <= g.columns,
        g.anchor_line < usize::MAX,
        forall|i: int|
            0 <= i < items@.len() ==> 3 * (#[trigger] items@[i]).label@.len() + 16 <= usize::MAX,
    ensures
        r is Some <==> popup_shown(items@, selected, g, language),
        r matches Some(l) ==> popup_matches(l, items@, selected, g, language),
{
    if g.columns < 12 || g.screen_lines < 2 {
        return None;
    }
    let below: usize = g.screen_lines.saturating_sub(g.anchor_line + 1);
    let above: usize = g.anchor_line;
    let want: usize = if items.len() <= 8 {
        items.len()
    } else {
        8
    };
    let (rows, start_line): (usize, usize) = if below >= want || below >= above {
        (if want <= below {
            want
        } else {
            below
        }, g.anchor_line + 1)
    } else {
        let n: usize = if want <= above {
            want
        } else {
            above
        };
        (n, g.anchor_line - n)
    };
    if rows == 0 {
        return None;
    }
    let chosen: Option<usize> = match selected {
        Some(i) => if i < items.len() {
            Some(i)
        } else {
            None
        },
        None => None,
    };
    let offset: usize = match chosen {
        Some(i) => if i >= rows {
            i + 1 - rows
        } else {
            0
        },
        None => 0,
    };
    let mut tag_w: usize = 0;
    let mut label_w_max: usize = 0;
    let mut i: usize = offset;
    while i < offset + rows
        invariant
            offset <= i <= offset + rows,
            offset + rows <= items.len(),
            tag_w == widest_tag(items@, language, offset as int, i as int),
            label_w_max == widest_label(items@, offset as int, i as int),
            tag_w <= 12,
            label_w_max + 16 <= usize::MAX,
            forall|i: int|
                0 <= i < items@.len() ==> 3 * (#[trigger] items@[i]).label@.len() + 16
                    <= usize::MAX,
        decreases offset + rows - i,
    {
        let t: usize = text_cols(items[i].kind.tag(language));
        if t > tag_w {
            tag_w = t;
        }
        let w: usize = text_cols(items[i].label.as_str());
        if w > label_w_max {
            label_w_max = w;
        }
        i += 1;
    }
    let mut start_col: usize = g.anchor_column;
    let mut avail: usize = g.columns - start_col;
    let full_w: usize = label_w_max + tag_w + 4;
    if full_w > avail {
        let short: usize = full_w - avail;
        let slide: usize = if short <= start_col {
            short
        } else {
            start_col
        };
        start_col -= slide;
        avail += slide;
    }
    let width: usize = if full_w <= avail {
        full_w
    } else {
        avail
    };
    let label_w: usize = width.saturating_sub(tag_w + 4);
    if label_w == 0 {
        return None;
    }
    let selected_row: Option<usize> = match chosen {
        Some(i) => Some(i - offset),
        None => None,
    };
    let span = PopupSpan { start_line, start_col, width, row_count: rows, offset, label_w, tag_w };
    let mut drawn: Vec<PopupRow> = Vec::new();
    let mut row: usize = 0;
    while row < rows && row < g.screen_lines && start_line < g.screen_lines - row
        invariant
            row <= rows,
            span == (PopupSpan {
                start_line,
                start_col,
                width,
                row_count: rows,
                offset,
                label_w,
                tag_w,
            }),
            row == drawn@.len(),
            start_line + row <= g.screen_lines || row == 0,
            offset + rows <= items.len(),
            start_col + width <= g.columns,
            label_w + tag_w + 4 == width,
            chosen == (match selected {
                Some(i) if i < items@.len() => Some(i),
                _ => None,
            }),
            forall|k: int|
                0 <= k < drawn@.len() ==> popup_row_shows(
                    #[trigger] drawn@[k],
                    items@[offset + k],
                    k,
                    span,
                    selected,
                    language,
                ),
        decreases rows - row,
    {
        let item = &items[offset + row];
        let padded = nebula_pad_to_cells(item.label.as_str(), label_w + 1);
        let mut label = String::new();
        label.push(item.kind.icon());
        label.push(' ');
        proof {
            assert(label@ =~= seq![item.kind.icon_char(), ' ']);
        }
        label.append(padded.as_str());
        let padded_tag = nebula_pad_to_cells(item.kind.tag(language), tag_w);
        proof {
            assert(is_padded(item.label@, label_w as nat + 1, padded@));
            assert(is_padded(item.kind.tag_text(language), tag_w as nat, padded_tag@));
            assert(label_cells(item.kind.icon_char(), item.label@, label_w as nat, label@));
        }
        let mut tag = padded_tag;
        tag.push(' ');
        proof {
            assert(tag_cells(item.kind.tag_text(language), tag_w as nat, tag@));
        }
        let is_selected: bool = match chosen {
            Some(i) => i == offset + row,
            None => false,
        };
        let shown = PopupRow {
            line: start_line + row,
            label,
            tag_col: start_col + 1 + label_w + 2,
            tag,
            selected: is_selected,
        };
        proof {
            assert(popup_row_shows(
                shown,
                items@[offset + row],
                row as int,
                span,
                selected,
                language,
            ));
        }
        drawn.push(shown);
        row += 1;
    }
    Some(PopupLayout { span, selected_row, rows: drawn })
}

/// The widest label is one of the shown ones, and none of them is wider; so for the tags.
pub proof fn widest_is_the_widest(
    items: Seq<NebulaCompletionItem>,
    language: UiLanguage,
    from: int,
    to: int,
)
    requires
        0 <= from <= to <= items.len(),
    ensures
        forall|i: int|
            from <= i < to ==> cells((#[trigger] items[i]).label@) <= widest_label(items, from, to)
                && cells(items[i].kind.tag_text(language)) <= widest_tag(items, language, from, to),
        from < to ==> exists|i: int|
            from <= i < to && cells((#[trigger] items[i]).label@) == widest_label(items, from, to),
        from < to ==> exists|i: int|
            from <= i < to && cells((#[trigger] items[i]).kind.tag_text(language)) == widest_tag(
                items,
                language,
                from,
                to,
            ),
        from == to ==> widest_label(items, from, to) == 0 && widest_tag(items, language, from, to)
            == 0,
    decreases to - from,
{
    if from < to {
        widest_is_the_widest(items, language, from, to - 1);
        let w = widest_label(items, from, to);
        let t = widest_tag(items, language, from, to);
        if cells(items[to - 1].label@) != w {
            let i = choose|i: int|
                from <= i < to - 1 && cells((#[trigger] items[i]).label@) == widest_label(
                    items,
                    from,
                    to - 1,
                );
            assert(cells(items[i].label@) == w);
        }
        if cells(items[to - 1].kind.tag_text(language)) != t {
            let i = choose|i: int|
                from <= i < to - 1 && cells((#[trigger] items[i]).kind.tag_text(language))
                    == widest_tag(items, language, from, to - 1);
            assert(cells(items[i].kind.tag_text(language)) == t);
        }
    }
}

/// The list shows as many rows as fit on the roomier side of the cursor, eight at most. It
/// stands right below the cursor where that side holds them all or is no smaller, and ends
/// right above it otherwise.
pub proof fn list_stands_beside_the_cursor(count: int, g: PopupGrid)
    requires
        count >= 0,
        g.anchor_line < g.screen_lines,
    ensures
        ({
            let (rows, line) = popup_place(count, g);
            let below = g.screen_lines - g.anchor_line - 1;
            let room = if below >= g.anchor_line {
                below
            } else {
                g.anchor_line as int
            };
            &&& rows <= 8 && rows <= count && rows <= room
            &&& rows == 8 || rows == count || rows == room
            &&& line == g.anchor_line + 1 <==> below >= rows && (below >= g.anchor_line || below
                >= 8 || below >= count)
            &&& line != g.anchor_line + 1 ==> line + rows == g.anchor_line
        }),
{
}

/// The selected item is shown, in the last row where it would lie below it; nothing is
/// scrolled before that.
pub proof fn selected_item_is_shown(count: int, selected: Option<usize>, rows: int)
    requires
        0 < rows <= count,
    ensures
        ({
            let offset = popup_offset(count, selected, rows);
            &&& 0 <= offset <= count - rows
            &&& selected matches Some(i) ==> (i < count ==> offset <= i < offset + rows)
            &&& selected matches Some(i) ==> (rows <= i < count ==> i == offset + rows - 1)
            &&& selected matches Some(i) ==> (i < rows || i >= count ==> offset == 0)
            &&& selected is None ==> offset == 0
        }),
{
}

/// The list begins at the cursor where it fits there, and slides left only as far as it must.
/// It is cut only where the grid is narrower than the list.
pub proof fn list_slides_as_little_as_it_must(full: int, g: PopupGrid)
    requires
        g.anchor_column <= g.columns,
        full >= 0,
    ensures
        ({
            let (column, width) = popup_span(full, g);
            &&& full <= g.columns ==> width == full
            &&& full > g.columns ==> width == g.columns && column == 0
            &&& g.anchor_column + full <= g.columns ==> column == g.anchor_column
            &&& g.anchor_column + full > g.columns ==> column + width == g.columns
        }),
{
}

/// Kinds are told apart by their sign and by their word.
pub proof fn kinds_look_different(a: NebulaCompletionKind, b: NebulaCompletionKind)
    ensures
        a.icon_char() == b.icon_char() ==> a == b,
        a.icon_char() == '/' <==> a is Dir,
        a.icon_char() == '·' <==> a is File,
        a.icon_char() == '›' <==> a is Command,
        a is Dir <==> a.tag_text(UiLanguage::English) == "dir"@,
        a is File <==> a.tag_text(UiLanguage::English) == "file"@,
        a is Command <==> a.tag_text(UiLanguage::English) == "cmd"@,
        a is History <==> a.tag_text(UiLanguage::English) == "hist"@,
        a is Dir <==> a.tag_text(UiLanguage::Chinese) == "目录"@,
        a is File <==> a.tag_text(UiLanguage::Chinese) == "文件"@,
        a is Command <==> a.tag_text(UiLanguage::Chinese) == "命令"@,
        a is History <==> a.tag_text(UiLanguage::Chinese) == "历史"@,
{
    reveal_strlit("dir");
    reveal_strlit("file");
    reveal_strlit("cmd");
    reveal_strlit("hist");
    reveal_strlit("目录");
    reveal_strlit("文件");
    reveal_strlit("命令");
    reveal_strlit("历史");
    assert("dir"@[0] == 'd' && "cmd"@[0] == 'c' && "file"@[0] == 'f' && "hist"@[0] == 'h');
    assert("目录"@[0] == '目' && "文件"@[0] == '文' && "命令"@[0] == '命' && "历史"@[0] == '历');
}

/// A list is shown in a grid with room for it. It stands in the grid, shows the items from
/// its offset on, one in each row, and marks the selected one.
pub proof fn shown_list_is_in_the_grid(
    items: Vec<NebulaCompletionItem>,
    selected: Option<usize>,
    g: PopupGrid,
    language: UiLanguage,
    r: Option<PopupLayout>,
)
    requires
        call_ensures(draw_completion_popup, (&items, selected, g, language), r),
        g.anchor_line < g.screen_lines,
        g.anchor_column <= g.columns,
    ensures
        items@.len() == 0 ==> r is None,
        g.columns < 12 || g.screen_lines < 2 ==> r is None,
        r matches Some(l) ==> {
            &&& l.span.start_col + l.span.width <= g.columns
            &&& l.span.row_count <= 8 && l.span.row_count <= items@.len()
            &&& l.rows@.len() <= l.span.row_count
            &&& forall|k: int|
                0 <= k < l.rows@.len() ==> (#[trigger] l.rows@[k]).line == l.span.start_line + k
                    && (l.rows@[k].selected <==> selected == Some((l.span.offset + k) as usize))
                    && l.rows@[k].line < g.screen_lines
            &&& l.selected_row is Some <==> (selected matches Some(i) && i < items@.len())
            &&& l.selected_row matches Some(i) ==> l.span.offset + i == selected->0 && i
                < l.span.row_count
        },
{
    let count = items@.len() as int;
    list_stands_beside_the_cursor(count, g);
    let (rows, start) = popup_place(count, g);
    if r is Some {
        selected_item_is_shown(count, selected, rows);
        let offset = popup_offset(count, selected, rows);
        let full = widest_label(items@, offset, offset + rows) + widest_tag(
            items@,
            language,
            offset,
            offset + rows,
        ) + 4;
        list_slides_as_little_as_it_must(full as int, g);
        let l = r->0;
        assert forall|k: int| 0 <= k < l.rows@.len() implies (#[trigger] l.rows@[k]).line
            == l.span.start_line + k && (l.rows@[k].selected <==> selected == Some(
            (l.span.offset + k) as usize,
        )) && l.rows@[k].line < g.screen_lines by {
            assert(popup_row_shows(l.rows@[k], items@[offset + k], k, l.span, selected, language));
        }
    }
}

} // verus!
