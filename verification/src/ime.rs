//! Texts over the grid: what an input method composes, the search line, the line
//! indicator and the preview of a link.
use crate::config::Platform;
use crate::hints::{LineDamage, ViewPoint};
use crate::text::{
    cells, chars_of, concat2, decimal, decimal_text, ink_cells, ink_cols, repeat_char, repeated,
    text_cols, text_range,
};
use vstd::prelude::*;

verus! {

/// The bytes that a character takes in UTF-8.
pub open spec fn utf8_len(c: char) -> nat {
    if (c as u32) < 0x80 {
        1
    } else if (c as u32) < 0x800 {
        2
    } else if (c as u32) < 0x10000 {
        3
    } else {
        4
    }
}

/// The bytes that a text takes in UTF-8.
pub open spec fn byte_len(s: Seq<char>) -> nat
    decreases s.len(),
{
    if s.len() == 0 {
        0
    } else {
        byte_len(s.drop_last()) + utf8_len(s.last())
    }
}

/// Whether the character `k` begins at the byte `b`.
pub open spec fn begins_at(s: Seq<char>, k: int, b: nat) -> bool {
    0 <= k <= s.len() && byte_len(s.take(k)) == b
}

/// Whether a character begins at the byte `b`, or the text ends there.
pub open spec fn is_boundary(s: Seq<char>, b: nat) -> bool {
    exists|k: int| begins_at(s, k, b)
}

proof fn lemma_byte_len_grows(s: Seq<char>, i: int, j: int)
    requires
        0 <= i <= j <= s.len(),
    ensures
        byte_len(s.take(i)) + (j - i) <= byte_len(s.take(j)),
    decreases j - i,
{
    if i < j {
        lemma_byte_len_grows(s, i, j - 1);
        assert(s.take(j).drop_last() =~= s.take(j - 1));
    }
}

/// At most one character begins at a byte.
pub proof fn boundary_is_unique(s: Seq<char>, i: int, j: int, b: nat)
    requires
        begins_at(s, i, b),
        begins_at(s, j, b),
    ensures
        i == j,
{
    if i < j {
        lemma_byte_len_grows(s, i, j);
    }
    if j < i {
        lemma_byte_len_grows(s, j, i);
    }
}

fn char_bytes(c: char) -> (n: usize)
    ensures
        n == utf8_len(c),
{
    let u: u32 = c as u32;
    if u < 0x80 {
        1
    } else if u < 0x800 {
        2
    } else if u < 0x10000 {
        3
    } else {
        4
    }
}

/// The character that begins at a byte.
pub fn char_at_byte(text: &Vec<char>, byte: usize) -> (k: usize)
    requires
        is_boundary(text@, byte as nat),
    ensures
        begins_at(text@, k as int, byte as nat),
        k <= text@.len(),
{
    let n: usize = text.len();
    let mut k: usize = 0;
    let mut sum: usize = 0;
    let ghost at = choose|at: int| begins_at(text@, at, byte as nat);
    proof {
        assert(text@.take(0) =~= Seq::<char>::empty());
        lemma_byte_len_grows(text@, 0, at);
    }
    while sum < byte
        invariant
            k <= text@.len(),
            n == text@.len(),
            sum == byte_len(text@.take(k as int)),
            sum <= byte,
            begins_at(text@, at, byte as nat),
        decreases byte - sum,
    {
        proof {
            if at <= k {
                lemma_byte_len_grows(text@, at, k as int);
            }
            lemma_byte_len_grows(text@, k + 1, at);
            assert(text@.take(k + 1).drop_last() =~= text@.take(k as int));
        }
        sum += char_bytes(text[k]);
        k += 1;
    }
    k
}

/// The text that an input method composes. The offsets of its caret are counted from the
/// end in columns.
#[derive(Debug)]
pub struct Preedit {
    pub text: String,
    pub cursor_byte_offset: Option<(usize, usize)>,
    pub cursor_end_offset: Option<(usize, usize)>,
}

/// The columns of the text from a byte on.
pub open spec fn cols_from_byte(s: Seq<char>, byte: usize, cols: usize) -> bool {
    exists|k: int| #[trigger] begins_at(s, k, byte as nat) && cols == ink_cells(s.skip(k))
}

impl Preedit {
    /// Takes a composed text. `cursor_byte_offset` are the bytes that its caret spans;
    /// without them it is not shown.
    pub fn new(text: String, cursor_byte_offset: Option<(usize, usize)>) -> (p: Preedit)
        requires
            3 * text@.len() <= usize::MAX,
            cursor_byte_offset matches Some((a, b)) ==> is_boundary(text@, a as nat) && is_boundary(
                text@,
                b as nat,
            ),
        ensures
            p.text == text,
            p.cursor_byte_offset == cursor_byte_offset,
            match cursor_byte_offset {
                Some((a, b)) => p.cursor_end_offset matches Some((x, y)) && cols_from_byte(
                    text@,
                    a,
                    x,
                ) && cols_from_byte(text@, b, y),
                None => p.cursor_end_offset is None,
            },
    {
        let end: Option<(usize, usize)> = match cursor_byte_offset {
            Some((a, b)) => {
                let chars = chars_of(text.as_str());
                let i: usize = char_at_byte(&chars, a);
                let j: usize = char_at_byte(&chars, b);
                let n: usize = chars.len();
                proof {
                    assert(chars@.subrange(i as int, n as int) =~= text@.skip(i as int));
                    assert(chars@.subrange(j as int, n as int) =~= text@.skip(j as int));
                }
                let x: usize = ink_cols(text_range(&chars, i, n).as_str());
                let y: usize = ink_cols(text_range(&chars, j, n).as_str());
                proof {
                    assert(begins_at(text@, i as int, a as nat));
                    assert(begins_at(text@, j as int, b as nat));
                }
                Some((x, y))
            },
            None => None,
        };
        Preedit { text, cursor_byte_offset, cursor_end_offset: end }
    }

    /// The part of the composed text to show in `num_cols` columns, and the end that is
    /// kept where it is too long: from the caret on where the caret would be cut off, else
    /// all of it with its end kept.
    pub fn visible_part(&self, num_cols: usize) -> (r: (String, bool))
        requires
            self.cursor_byte_offset matches Some((a, _)) ==> is_boundary(self.text@, a as nat),
        ensures
            match (self.cursor_byte_offset, self.cursor_end_offset) {
                (Some((a, _)), Some((x, _))) if x > num_cols => r.1 && exists|k: int| #[trigger]
                    begins_at(self.text@, k, a as nat) && r.0@ == self.text@.skip(k),
                _ => !r.1 && r.0@ == self.text@,
            },
    {
        match (self.cursor_byte_offset, self.cursor_end_offset) {
            (Some((a, _)), Some((x, _))) => {
                if x > num_cols {
                    let chars = chars_of(self.text.as_str());
                    let i: usize = char_at_byte(&chars, a);
                    let n: usize = chars.len();
                    proof {
                        assert(chars@.subrange(i as int, n as int) =~= self.text@.skip(i as int));
                        assert(begins_at(self.text@, i as int, a as nat));
                    }
                    return (text_range(&chars, i, n), true);
                }
                (self.text.clone(), false)
            },
            _ => (self.text.clone(), false),
        }
    }
}

/// The state of the input method.
#[derive(Debug)]
pub struct Ime {
    pub enabled: bool,
    pub preedit: Option<Preedit>,
}

impl Ime {
    /// Switches the input method; what was composed goes when it is switched off.
    pub fn set_enabled(&mut self, is_enabled: bool)
        ensures
            is_enabled ==> *final(self) == (Ime { enabled: true, ..*old(self) }),
            !is_enabled ==> *final(self) == (Ime { enabled: false, preedit: None }),
    {
        if is_enabled {
            self.enabled = true;
        } else {
            self.enabled = false;
            self.preedit = None;
        }
    }

    pub fn is_enabled(&self) -> (r: bool)
        ensures
            r == self.enabled,
    {
        self.enabled
    }

    pub fn set_preedit(&mut self, preedit: Option<Preedit>)
        ensures
            *final(self) == (Ime { preedit, ..*old(self) }),
    {
        self.preedit = preedit;
    }

    pub fn preedit(&self) -> (r: Option<&Preedit>)
        ensures
            match r {
                Some(p) => self.preedit == Some(*p),
                None => self.preedit is None,
            },
    {
        self.preedit.as_ref()
    }
}

/// The caret in a composed text: a hollow block over what is being changed, or a bar.
#[derive(Clone, Copy, Debug, PartialEq, Eq, Structural)]
pub struct ImeCaret {
    pub column: usize,
    pub width: usize,
    pub hollow: bool,
}

/// Where a composed text is drawn: its first and its last column, its caret, and the
/// column at which the input method opens its list. `damage` tells that it lies in the
/// grid.
#[derive(Clone, Copy, Debug, PartialEq, Eq, Structural)]
pub struct ImePreview {
    pub line: usize,
    pub start: usize,
    pub end: usize,
    pub caret: Option<ImeCaret>,
    pub popup_column: usize,
    pub damage: bool,
}

/// Where a text of `len` columns that begins at the cursor ends: inside the grid.
pub open spec fn preview_end(column: usize, len: usize, num_cols: usize) -> int {
    if column + len < num_cols {
        column + len
    } else {
        num_cols as int
    }
}

/// The column of a caret that stands `offset` columns before the end.
pub open spec fn caret_column(end: int, offset: usize) -> int {
    if end - offset + 1 > 0 {
        end - offset + 1
    } else {
        0
    }
}

/// What is drawn for the input method at a cursor: where it opens its list, and the composed
/// text, where there is one.
#[derive(Clone, Copy, Debug, PartialEq, Eq, Structural)]
pub struct ImePlan {
    pub popup: ViewPoint,
    pub preview: Option<ImePreview>,
}

impl Ime {
    /// Decides what is drawn for the input method at a cursor. `visible_len` are the
    /// characters that are shown of the composed text; without one only the list of the
    /// input method follows the cursor.
    pub fn draw_ime_preview(
        &self,
        point: ViewPoint,
        visible_len: usize,
        num_cols: usize,
        screen_lines: usize,
    ) -> (p: ImePlan)
        requires
            self.preedit matches Some(t) ==> {
                &&& point.column + visible_len <= usize::MAX
                &&& preview_end(point.column, visible_len, num_cols) >= 1
                &&& t.cursor_end_offset matches Some((a, b)) ==> b <= a
            },
        ensures
            match self.preedit {
                None => p == (ImePlan { popup: point, preview: None }),
                Some(t) => p.preview matches Some(v) && laid_out(
                    v,
                    point,
                    visible_len,
                    t.cursor_end_offset,
                    num_cols,
                    screen_lines,
                ) && p.popup == (ViewPoint { line: point.line, column: v.popup_column }),
            },
    {
        match &self.preedit {
            None => ImePlan { popup: point, preview: None },
            Some(t) => {
                let v = lay_out(point, visible_len, t.cursor_end_offset, num_cols, screen_lines);
                ImePlan {
                    popup: ViewPoint { line: point.line, column: v.popup_column },
                    preview: Some(v),
                }
            },
        }
    }
}

/// Whether `p` is the layout of a composed text of `visible_len` characters at the cursor:
/// it ends inside the grid, and its caret spans what is being changed.
pub open spec fn laid_out(
    p: ImePreview,
    point: ViewPoint,
    visible_len: usize,
    offset: Option<(usize, usize)>,
    num_cols: usize,
    screen_lines: usize,
) -> bool {
    &&& p.line == point.line
    &&& p.end == preview_end(point.column, visible_len, num_cols) - 1
    &&& p.start == (if visible_len <= p.end + 1 {
        p.end + 1 - visible_len
    } else {
        0
    })
    &&& match offset {
        Some((a, b)) => {
            let column = caret_column(p.end as int, a);
            &&& p.caret == Some(
                ImeCaret {
                    column: column as usize,
                    width: if a > b {
                        (a - b) as usize
                    } else {
                        1
                    },
                    hollow: a > b,
                },
            )
            &&& p.popup_column == column
        },
        None => p.caret is None && p.popup_column == p.end,
    }
    &&& p.damage == (point.line < screen_lines)
}

/// Lays the composed text out at the cursor.
fn lay_out(
    point: ViewPoint,
    visible_len: usize,
    offset: Option<(usize, usize)>,
    num_cols: usize,
    screen_lines: usize,
) -> (p: ImePreview)
    requires
        point.column + visible_len <= usize::MAX,
        preview_end(point.column, visible_len, num_cols) >= 1,
        offset matches Some((a, b)) ==> b <= a,
    ensures
        laid_out(p, point, visible_len, offset, num_cols, screen_lines),
{
    let full: usize = point.column + visible_len;
    let end: usize = if full < num_cols {
        full
    } else {
        num_cols
    };
    let start: usize = end.saturating_sub(visible_len);
    let last: usize = end - 1;
    let mut caret: Option<ImeCaret> = None;
    let mut popup_column: usize = last;
    if let Some((a, b)) = offset {
        let column: usize = if a <= last {
            last - a + 1
        } else {
            0
        };
        let width: usize = if a > b {
            a - b
        } else {
            1
        };
        caret = Some(ImeCaret { column, width, hollow: a > b });
        popup_column = column;
    }
    ImePreview {
        line: point.line,
        start,
        end: last,
        caret,
        popup_column,
        damage: point.line < screen_lines,
    }
}

/// The label of a search in its direction.
pub open spec fn search_label(forward: bool) -> Seq<char> {
    if forward {
        "Search: "@
    } else {
        "Backward Search: "@
    }
}

fn search_label_text(forward: bool) -> (s: &'static str)
    ensures
        s@ == search_label(forward),
{
    if forward {
        "Search: "
    } else {
        "Backward Search: "
    }
}

/// The columns that the search line leaves for the text that is searched for, none where
/// even the label does not fit.
pub fn search_text_width(forward: bool, max_width: usize) -> (r: Option<usize>)
    ensures
        search_label(forward).len() > max_width ==> r is None,
        search_label(forward).len() < max_width ==> r == Some(
            (max_width - search_label(forward).len() - 1) as usize,
        ),
        search_label(forward).len() == max_width ==> r == Some(usize::MAX),
{
    proof {
        reveal_strlit("Search: ");
        reveal_strlit("Backward Search: ");
    }
    let label: usize = if forward {
        8
    } else {
        17
    };
    if label > max_width {
        None
    } else {
        Some(max_width.wrapping_sub(label + 1))
    }
}

/// The search line: its label, what of the text fits, and room for the caret. Where not
/// even the label fits, as much of it as does.
pub fn format_search(shortened: &str, forward: bool, max_width: usize) -> (s: String)
    ensures
        search_label(forward).len() > max_width ==> s@ == search_label(forward).take(
            max_width as int,
        ),
        search_label(forward).len() <= max_width ==> s@ == (search_label(forward) + shortened@).push(
            ' ',
        ),
{
    let label = search_label_text(forward);
    let chars = chars_of(label);
    if chars.len() > max_width {
        proof {
            assert(chars@.subrange(0, max_width as int) =~= search_label(forward).take(
                max_width as int,
            ));
        }
        return text_range(&chars, 0, max_width);
    }
    let mut s = concat2(label, shortened);
    s.push(' ');
    s
}

/// The search line filled up to the width of the grid.
pub fn draw_search(text: &str, num_cols: usize) -> (s: String)
    ensures
        text@.len() < num_cols ==> s@ == text@ + repeated(' ', (num_cols - text@.len()) as nat),
        text@.len() >= num_cols ==> s@ == text@,
{
    let len: usize = chars_of(text).len();
    if len < num_cols {
        let fill = repeat_char(' ', num_cols - len);
        concat2(text, fill.as_str())
    } else {
        text.to_owned()
    }
}

/// The note about the line in the history: its text, where it stands in the first line,
/// whether it is drawn, and the cells that count as changed in this frame and in the next.
#[derive(Debug)]
pub struct LineIndicator {
    pub text: String,
    pub column: usize,
    pub drawn: bool,
    pub damage: LineDamage,
}

/// The text of the note.
pub open spec fn indicator_text(line: usize, total_lines: usize) -> Seq<char> {
    "["@ + decimal_text(line as nat) + "/"@ + decimal_text((total_lines - 1) as nat) + "]"@
}

/// Lays the note out at the right edge. It is not drawn over the keyboard cursor; its cells
/// up to the edge count as changed either way.
pub fn draw_line_indicator(
    line: usize,
    total_lines: usize,
    columns: usize,
    obstructed_column: Option<usize>,
) -> (i: LineIndicator)
    requires
        total_lines > 0,
        columns > 0,
    ensures
        i.text@ == indicator_text(line, total_lines),
        i.column == (if columns >= i.text@.len() {
            columns - i.text@.len()
        } else {
            0
        }),
        i.drawn == (obstructed_column matches Some(c) ==> c < i.column),
        i.damage == (LineDamage { line: 0, left: i.column, right: (columns - 1) as usize }),
{
    let mut text = concat2("[", decimal(line as u64).as_str());
    text.append("/");
    text.append(decimal((total_lines - 1) as u64).as_str());
    text.append("]");
    let len: usize = chars_of(text.as_str()).len();
    let column: usize = columns.saturating_sub(len);
    let drawn: bool = match obstructed_column {
        Some(c) => c < column,
        None => true,
    };
    let damage = LineDamage { line: 0, left: column, right: columns - 1 };
    LineIndicator { text, column, drawn, damage }
}

/// How a link is opened, as its preview says it.
pub open spec fn open_hint(platform: Platform) -> Seq<char> {
    match platform {
        Platform::MacOs => " · ⌘+点击"@,
        _ => " · Ctrl+点击"@,
    }
}

fn open_hint_text(platform: Platform) -> (s: &'static str)
    ensures
        s@ == open_hint(platform),
        s@.len() <= 16,
{
    proof {
        reveal_strlit(" · ⌘+点击");
        reveal_strlit(" · Ctrl+点击");
    }
    match platform {
        Platform::MacOs => " · ⌘+点击",
        _ => " · Ctrl+点击",
    }
}

/// The columns that the preview leaves for the address.
pub fn link_budget(platform: Platform, num_cols: usize) -> (n: usize)
    ensures
        n == (if num_cols >= cells(open_hint(platform)) + 1 {
            num_cols - cells(open_hint(platform)) - 1
        } else {
            0
        }),
{
    let hint: usize = text_cols(open_hint_text(platform));
    num_cols.saturating_sub(hint + 1)
}

/// The preview of a link: its text, the line it stands in, and the lines it touches.
#[derive(Debug)]
pub struct LinkPreview {
    pub label: String,
    pub line: usize,
    pub column: usize,
    pub first_touched: usize,
    pub last_touched: usize,
}

/// Lays the preview of a link out: in the line below the link, above it in the last line.
/// It hangs on the first cell of the link, or on the pointer where that is out of sight;
/// with neither in sight there is none. `target` is the address, cut to its budget.
pub fn draw_hyperlink_preview(
    target: &str,
    link_start: Option<ViewPoint>,
    pointer: Option<ViewPoint>,
    platform: Platform,
    screen_lines: usize,
) -> (r: Option<LinkPreview>)
    requires
        link_start matches Some(p) ==> p.line < usize::MAX - 1,
        pointer matches Some(p) ==> p.line < usize::MAX - 1,
    ensures
        r is Some <==> link_start is Some || pointer is Some,
        r matches Some(p) ==> {
            let anchor = if link_start is Some {
                link_start->0
            } else {
                pointer->0
            };
            let last = if screen_lines > 0 {
                screen_lines - 1
            } else {
                0
            };
            &&& p.label@ == target@ + open_hint(platform)
            &&& p.column == anchor.column
            &&& p.line == (if anchor.line + 1 < screen_lines {
                anchor.line + 1
            } else if anchor.line > 0 {
                anchor.line - 1
            } else {
                0
            })
            &&& p.first_touched == (if p.line > 0 {
                p.line - 1
            } else {
                0
            })
            &&& p.last_touched == (if p.line + 1 < last {
                p.line + 1
            } else {
                last
            })
        },
{
    let anchor: ViewPoint = match (link_start, pointer) {
        (Some(p), _) => p,
        (None, Some(p)) => p,
        (None, None) => {
            return None;
        },
    };
    let line: usize = if anchor.line + 1 < screen_lines {
        anchor.line + 1
    } else {
        anchor.line.saturating_sub(1)
    };
    let last: usize = screen_lines.saturating_sub(1);
    let below: usize = line + 1;
    Some(
        LinkPreview {
            label: concat2(target, open_hint_text(platform)),
            line,
            column: anchor.column,
            first_touched: line.saturating_sub(1),
            last_touched: if below < last {
                below
            } else {
                last
            },
        },
    )
}

/// The composed text stays inside the grid.
pub proof fn preview_stays_in_grid(column: usize, len: usize, num_cols: usize)
    requires
        column < num_cols,
    ensures
        0 < preview_end(column, len, num_cols) || len == 0,
        preview_end(column, len, num_cols) <= num_cols,
{
}

/// Bytes of a text are those of its parts together; a character takes one to four, and ASCII
/// takes one.
pub proof fn bytes_add_up(a: Seq<char>, b: Seq<char>, c: char)
    ensures
        byte_len(a + b) == byte_len(a) + byte_len(b),
        byte_len(seq![c]) == utf8_len(c),
        1 <= utf8_len(c) <= 4,
        utf8_len(c) == 1 <==> (c as u32) <= 0x7f,
        utf8_len(c) <= 2 <==> (c as u32) <= 0x7ff,
        utf8_len(c) <= 3 <==> (c as u32) <= 0xffff,
    decreases b.len(),
{
    if b.len() > 0 {
        bytes_add_up(a, b.drop_last(), c);
        assert((a + b).drop_last() =~= a + b.drop_last());
        assert((a + b).last() == b.last());
    } else {
        assert(a + b =~= a);
    }
    assert(seq![c].drop_last() =~= Seq::empty());
    assert(byte_len(seq![c].drop_last()) == 0);
}

/// What is composed stands where it is typed as long as it fits there, and else ends with the
/// line. The caret and the list of the input method stand `offset` columns before its end,
/// or at its end where no caret is known.
pub proof fn composed_text_stands_where_it_fits(
    p: ImePreview,
    point: ViewPoint,
    visible_len: usize,
    offset: Option<(usize, usize)>,
    num_cols: usize,
    screen_lines: usize,
)
    requires
        laid_out(p, point, visible_len, offset, num_cols, screen_lines),
        point.column < num_cols,
        0 < visible_len <= num_cols,
    ensures
        p.line == point.line,
        p.end < num_cols,
        p.end + 1 - p.start == visible_len,
        point.column + visible_len <= num_cols ==> p.start == point.column,
        point.column + visible_len > num_cols ==> p.end + 1 == num_cols,
        p.caret is Some <==> offset is Some,
        offset matches Some((a, b)) ==> {
            &&& a <= p.end + 1 ==> p.caret->0.column + a == p.end + 1 && p.popup_column + a == p.end
                + 1
            &&& a > p.end + 1 ==> p.caret->0.column == 0 && p.popup_column == 0
            &&& p.caret->0.hollow <==> a > b
            &&& a > b ==> p.caret->0.width == a - b
            &&& a <= b ==> p.caret->0.width == 1
        },
        offset is None ==> p.popup_column == p.end,
        p.damage <==> point.line < screen_lines,
{
}

/// A note on the history tells the line and the last line, in brackets.
pub proof fn history_note_tells_line_and_last_line(line: usize, total_lines: usize)
    requires
        total_lines > 0,
    ensures
        ({
            let t = indicator_text(line, total_lines);
            let n = decimal_text(line as nat);
            let k = n.len() as int;
            let m = decimal_text((total_lines - 1) as nat);
            &&& t.len() == n.len() + m.len() + 3
            &&& t[0] == '[' && t.last() == ']' && t[k + 1] == '/'
            &&& t.subrange(1, k + 1) == n
            &&& t.subrange(k + 2, t.len() - 1) == m
        }),
{
    reveal_strlit("[");
    reveal_strlit("/");
    reveal_strlit("]");
    let t = indicator_text(line, total_lines);
    let n = decimal_text(line as nat);
    let k = n.len() as int;
    let m = decimal_text((total_lines - 1) as nat);
    assert(t.subrange(1, k + 1) =~= n);
    assert(t.subrange(k + 2, t.len() - 1) =~= m);
}

/// Switching the input method off forgets what is composed; composing does not switch it.
pub proof fn input_method_off_forgets(
    s: &mut Ime,
    on: bool,
    t: &mut Ime,
    preedit: Option<Preedit>,
)
    requires
        call_ensures(Ime::set_enabled, (s, on), ()),
        call_ensures(Ime::set_preedit, (t, preedit), ()),
    ensures
        final(s).enabled == on,
        !on ==> final(s).preedit is None,
        on ==> final(s).preedit == old(s).preedit,
        final(t).preedit == preedit && final(t).enabled == old(t).enabled,
{
}

/// Without anything composed the list of the input method stands at the cursor, and else in
/// its line.
pub proof fn input_method_writes_at_the_cursor(
    s: Ime,
    point: ViewPoint,
    visible_len: usize,
    num_cols: usize,
    screen_lines: usize,
    p: ImePlan,
)
    requires
        call_ensures(Ime::draw_ime_preview, (&s, point, visible_len, num_cols, screen_lines), p),
        point.column < num_cols,
        0 < visible_len <= num_cols,
    ensures
        s.preedit is None ==> p.preview is None && p.popup == point,
        s.preedit is Some ==> p.preview is Some && p.popup.line == point.line,
        s.preedit is Some && point.column + visible_len <= num_cols ==> p.preview->0.start
            == point.column,
        p.preview matches Some(v) ==> v.end < num_cols && v.end + 1 - v.start == visible_len
            && v.line == point.line && p.popup.column == v.popup_column,
{
    if s.preedit is Some {
        composed_text_stands_where_it_fits(
            p.preview->0,
            point,
            visible_len,
            (s.preedit->0).cursor_end_offset,
            num_cols,
            screen_lines,
        );
    }
}

/// What is composed is shown whole, or from the caret on where it does not fit.
pub proof fn composed_text_is_shown_from_the_caret(p: Preedit, num_cols: usize, r: (String, bool))
    requires
        call_ensures(Preedit::visible_part, (&p, num_cols), r),
    ensures
        !r.1 ==> r.0@ == p.text@,
        r.1 ==> exists|k: int| 0 <= k <= p.text@.len() && r.0@ == #[trigger] p.text@.skip(k),
        p.cursor_byte_offset is None || p.cursor_end_offset is None ==> !r.1,
        (p.cursor_end_offset matches Some((x, _)) && x <= num_cols) ==> !r.1,
{
}

/// A search line is its label and what is searched for with a blank behind it, and is filled
/// up to the width of the window.
pub proof fn search_line_is_filled(
    shortened: &str,
    forward: bool,
    max_width: usize,
    s: String,
    text: &str,
    num_cols: usize,
    line: String,
)
    requires
        call_ensures(format_search, (shortened, forward, max_width), s),
        call_ensures(draw_search, (text, num_cols), line),
    ensures
        forward && max_width >= 8 ==> s@ == "Search: "@ + shortened@ + seq![' '],
        !forward && max_width >= 17 ==> s@ == "Backward Search: "@ + shortened@ + seq![' '],
        forward && max_width < 8 || !forward && max_width < 17 ==> s@.len() == max_width,
        line@.len() >= num_cols && line@.len() >= text@.len(),
        line@.len() == num_cols || line@ == text@,
        line@.take(text@.len() as int) == text@,
        forall|i: int| text@.len() <= i < line@.len() ==> #[trigger] line@[i] == ' ',
{
    reveal_strlit("Search: ");
    reveal_strlit("Backward Search: ");
    assert("Search: "@ + shortened@ + seq![' '] =~= ("Search: "@ + shortened@).push(' '));
    assert("Backward Search: "@ + shortened@ + seq![' '] =~= ("Backward Search: "@
        + shortened@).push(' '));
    assert(line@.take(text@.len() as int) =~= text@);
}

/// A note on the history stands in the right corner and makes way for what is under it.
pub proof fn history_note_makes_way(
    line: usize,
    total_lines: usize,
    columns: usize,
    obstructed: Option<usize>,
    i: LineIndicator,
)
    requires
        call_ensures(draw_line_indicator, (line, total_lines, columns, obstructed), i),
        columns > 0,
    ensures
        i.text@.len() <= columns ==> i.column + i.text@.len() == columns,
        i.text@.len() > columns ==> i.column == 0,
        obstructed is None ==> i.drawn,
        obstructed matches Some(c) ==> (i.drawn <==> c < i.column),
        i.damage.left == i.column && i.damage.right == columns - 1 && i.damage.line == 0,
{
}

/// The note on a link stands in the line below the link, or above it in the last line, and
/// shows the whole target with how to open it.
pub proof fn link_note_stands_beside_the_link(
    target: &str,
    link_start: Option<ViewPoint>,
    pointer: Option<ViewPoint>,
    platform: Platform,
    screen_lines: usize,
    r: Option<LinkPreview>,
)
    requires
        call_ensures(
            draw_hyperlink_preview,
            (target, link_start, pointer, platform, screen_lines),
            r,
        ),
    ensures
        r is Some <==> link_start is Some || pointer is Some,
        r matches Some(p) ==> {
            let anchor = if link_start is Some {
                link_start->0
            } else {
                pointer->0
            };
            &&& p.label@.take(target@.len() as int) == target@
            &&& p.label@.len() > target@.len()
            &&& p.column == anchor.column
            &&& anchor.line + 1 < screen_lines ==> p.line == anchor.line + 1
            &&& anchor.line + 1 >= screen_lines && anchor.line > 0 ==> p.line + 1 == anchor.line
            &&& p.first_touched <= p.line
        },
{
    reveal_strlit(" · ⌘+点击");
    reveal_strlit(" · Ctrl+点击");
    if r is Some {
        assert((r->0).label@.take(target@.len() as int) =~= target@);
    }
}

/// A search text has the room that its label leaves, less the blank for the caret; a link has
/// what the hint on how to open it leaves.
pub proof fn labels_leave_room(forward: bool, max_width: usize, r: Option<usize>)
    requires
        call_ensures(search_text_width, (forward, max_width), r),
    ensures
        forward && max_width > 8 ==> r == Some((max_width - 9) as usize),
        !forward && max_width > 17 ==> r == Some((max_width - 18) as usize),
        forward && max_width < 8 ==> r is None,
        !forward && max_width < 17 ==> r is None,
{
    reveal_strlit("Search: ");
    reveal_strlit("Backward Search: ");
}

/// What is composed keeps its text and where its cursor is; the columns behind the cursor are
/// those of the text behind it.
pub proof fn composed_text_is_kept(text: String, offset: Option<(usize, usize)>, p: Preedit)
    requires
        call_ensures(Preedit::new, (text, offset), p),
    ensures
        p.text == text && p.cursor_byte_offset == offset,
        p.cursor_end_offset is Some <==> offset is Some,
        offset matches Some((a, _)) ==> exists|k: int| #[trigger]
            begins_at(text@, k, a as nat) && (p.cursor_end_offset->0).0 == ink_cells(text@.skip(k)),
{
    if offset is Some {
        let (a, b) = offset->0;
        let (x, y) = p.cursor_end_offset->0;
        assert(cols_from_byte(text@, a, x));
    }
}

} // verus!
