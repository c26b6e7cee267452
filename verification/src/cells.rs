//! Fitting text into a fixed number of terminal cells.
use crate::text::{cell_width, cell_width_of, cells, chars_of, repeated, texts};
use vstd::prelude::*;

verus! {

/// A paragraph while it is being wrapped: the finished lines, the line that is being
/// filled and the columns that it takes.
pub struct Wrap {
    pub lines: Seq<Seq<char>>,
    pub line: Seq<char>,
    pub cols: nat,
}

/// The paragraph after one more character. A space at the start of a line that a break
/// opened is dropped. A character without width joins the current line, and one that no
/// longer fits opens a new line.
pub open spec fn wrap_char(w: Wrap, c: char, max_cols: nat) -> Wrap {
    let n = cell_width(c);
    if c == ' ' && w.lines.len() > 0 && w.line.len() == 0 {
        w
    } else if n == 0 {
        Wrap { line: w.line.push(c), ..w }
    } else if w.cols + n > max_cols && w.cols > 0 {
        if c == ' ' {
            Wrap { lines: w.lines.push(w.line), line: Seq::empty(), cols: 0 }
        } else {
            Wrap { lines: w.lines.push(w.line), line: seq![c], cols: n }
        }
    } else {
        Wrap { line: w.line.push(c), cols: w.cols + n, ..w }
    }
}

/// The paragraph after the whole of `s`.
pub open spec fn wrap_all(s: Seq<char>, max_cols: nat) -> Wrap
    decreases s.len(),
{
    if s.len() == 0 {
        Wrap { lines: Seq::empty(), line: Seq::empty(), cols: 0 }
    } else {
        wrap_char(wrap_all(s.drop_last(), max_cols), s.last(), max_cols)
    }
}

/// The lines of `s` when no line may take more than `max_cols` columns.
pub open spec fn wrapped(s: Seq<char>, max_cols: nat) -> Seq<Seq<char>> {
    let w = wrap_all(s, max_cols);
    if w.line.len() > 0 || w.lines.len() == 0 {
        w.lines.push(w.line)
    } else {
        w.lines
    }
}

/// The number of characters of `s` that take a column or more.
pub open spec fn wide_count(s: Seq<char>) -> nat
    decreases s.len(),
{
    if s.len() == 0 {
        0
    } else if cell_width(s.last()) > 0 {
        wide_count(s.drop_last()) + 1
    } else {
        wide_count(s.drop_last())
    }
}

/// `s` without its spaces.
pub open spec fn unspaced(s: Seq<char>) -> Seq<char>
    decreases s.len(),
{
    if s.len() == 0 {
        Seq::empty()
    } else if s.last() == ' ' {
        unspaced(s.drop_last())
    } else {
        unspaced(s.drop_last()).push(s.last())
    }
}

/// The lines one after the other.
pub open spec fn joined(lines: Seq<Seq<char>>) -> Seq<char>
    decreases lines.len(),
{
    if lines.len() == 0 {
        Seq::empty()
    } else {
        joined(lines.drop_last()) + lines.last()
    }
}

/// A line that stays within `max_cols` columns, or that holds a single character with
/// a width because that character alone is wider.
pub open spec fn line_fits(line: Seq<char>, max_cols: nat) -> bool {
    cells(line) <= max_cols || wide_count(line) == 1
}

pub proof fn lemma_cells_push(s: Seq<char>, c: char)
    ensures
        cells(s.push(c)) == cells(s) + cell_width(c),
        wide_count(s.push(c)) == wide_count(s) + (if cell_width(c) > 0 { 1nat } else { 0nat }),
        unspaced(s.push(c)) == (if c == ' ' { unspaced(s) } else { unspaced(s).push(c) }),
{
    assert(s.push(c).drop_last() =~= s);
}

proof fn lemma_unspaced_concat(a: Seq<char>, b: Seq<char>)
    ensures
        unspaced(a + b) == unspaced(a) + unspaced(b),
    decreases b.len(),
{
    if b.len() == 0 {
        assert(a + b =~= a);
        assert(unspaced(a) + unspaced(b) =~= unspaced(a));
    } else {
        lemma_unspaced_concat(a, b.drop_last());
        assert((a + b).drop_last() =~= a + b.drop_last());
        assert((a + b).last() == b.last());
        assert(unspaced(a) + unspaced(b.drop_last()).push(b.last()) =~= (unspaced(a) + unspaced(
            b.drop_last(),
        )).push(b.last()));
    }
}

proof fn lemma_joined_push(lines: Seq<Seq<char>>, line: Seq<char>)
    ensures
        joined(lines.push(line)) == joined(lines) + line,
{
    assert(lines.push(line).drop_last() =~= lines);
}

proof fn lemma_wrap_all(s: Seq<char>, max_cols: nat)
    ensures
        ({
            let w = wrap_all(s, max_cols);
            &&& w.cols == cells(w.line)
            &&& w.cols > 0 ==> wide_count(w.line) > 0
            &&& w.cols == 0 ==> wide_count(w.line) == 0
            &&& line_fits(w.line, max_cols)
            &&& forall|i: int| 0 <= i < w.lines.len() ==> line_fits(#[trigger] w.lines[i], max_cols)
            &&& unspaced(joined(w.lines) + w.line) == unspaced(s)
        }),
    decreases s.len(),
{
    let w = wrap_all(s, max_cols);
    if s.len() == 0 {
        assert(joined(w.lines) + w.line =~= Seq::<char>::empty());
    } else {
        let p = wrap_all(s.drop_last(), max_cols);
        let c = s.last();
        lemma_wrap_all(s.drop_last(), max_cols);
        lemma_cells_push(p.line, c);
        lemma_cells_push(Seq::empty(), c);
        lemma_cells_push(joined(p.lines) + p.line, c);
        lemma_joined_push(p.lines, p.line);
        assert((joined(p.lines) + p.line).push(c) =~= joined(p.lines) + p.line.push(c));
        assert((joined(p.lines) + p.line).push(c) =~= (joined(p.lines) + p.line) + seq![c]);
        assert((joined(p.lines) + p.line) + Seq::<char>::empty() =~= joined(p.lines) + p.line);
        assert(Seq::<char>::empty().push(c) =~= seq![c]);
    }
}

/// Every line of a wrapped paragraph stays within the columns that it was given, unless
/// it holds one character with a width and that one is wider.
pub proof fn wrapped_lines_fit(s: Seq<char>, max_cols: nat)
    ensures
        forall|i: int|
            0 <= i < wrapped(s, max_cols).len() ==> line_fits(
                #[trigger] wrapped(s, max_cols)[i],
                max_cols,
            ),
{
    lemma_wrap_all(s, max_cols);
}

proof fn lemma_lines_start(s: Seq<char>, max_cols: nat)
    ensures
        ({
            let w = wrap_all(s, max_cols);
            &&& w.cols > 0 ==> w.line.len() > 0
            &&& forall|i: int| 0 <= i < w.lines.len() ==> (#[trigger] w.lines[i]).len() > 0
            &&& forall|i: int| 1 <= i < w.lines.len() ==> (#[trigger] w.lines[i])[0] != ' '
            &&& w.lines.len() > 0 && w.line.len() > 0 ==> w.line[0] != ' '
        }),
    decreases s.len(),
{
    if s.len() > 0 {
        lemma_lines_start(s.drop_last(), max_cols);
    }
}

/// No line but the first one starts with a space.
pub proof fn wrapped_lines_start_with_text(s: Seq<char>, max_cols: nat)
    ensures
        forall|i: int|
            1 <= i < wrapped(s, max_cols).len() ==> (#[trigger] wrapped(s, max_cols)[i]).len() > 0
                && wrapped(s, max_cols)[i][0] != ' ',
{
    lemma_lines_start(s, max_cols);
}

/// A line is broken only where it is full: what comes after it, a dropped space or the
/// first character of the next line, does not fit into it.
pub open spec fn full_before(line: Seq<char>, next: Seq<char>, max_cols: nat) -> bool {
    ||| cells(line) + cell_width(' ') > max_cols
    ||| next.len() > 0 && cells(line) + cell_width(next[0]) > max_cols
}

proof fn lemma_lines_full(s: Seq<char>, max_cols: nat)
    ensures
        ({
            let w = wrap_all(s, max_cols);
            &&& forall|i: int|
                0 <= i < w.lines.len() - 1 ==> full_before(
                    #[trigger] w.lines[i],
                    w.lines[i + 1],
                    max_cols,
                )
            &&& w.lines.len() > 0 ==> full_before(w.lines.last(), w.line, max_cols)
            &&& s.len() > 0 && w.lines.len() == 0 ==> w.line.len() > 0
        }),
    decreases s.len(),
{
    if s.len() > 0 {
        let p = wrap_all(s.drop_last(), max_cols);
        let w = wrap_all(s, max_cols);
        lemma_lines_full(s.drop_last(), max_cols);
        lemma_wrap_all(s.drop_last(), max_cols);
        assert forall|i: int| 0 <= i < w.lines.len() - 1 implies full_before(
            #[trigger] w.lines[i],
            w.lines[i + 1],
            max_cols,
        ) by {
            assert(w.lines[i] == p.lines[i]);
            if i + 1 < p.lines.len() {
                assert(w.lines[i + 1] == p.lines[i + 1]);
            }
        }
    }
}

/// Lines are broken greedily: each but the last one is full.
pub proof fn wrapped_lines_are_full(s: Seq<char>, max_cols: nat)
    ensures
        forall|i: int|
            0 <= i < wrapped(s, max_cols).len() - 1 ==> full_before(
                #[trigger] wrapped(s, max_cols)[i],
                wrapped(s, max_cols)[i + 1],
                max_cols,
            ),
{
    lemma_lines_full(s, max_cols);
}

/// A text that holds anything has no empty line, not even the first one.
pub proof fn wrapped_lines_hold_text(s: Seq<char>, max_cols: nat)
    ensures
        s.len() > 0 ==> forall|i: int|
            0 <= i < wrapped(s, max_cols).len() ==> (#[trigger] wrapped(s, max_cols)[i]).len() > 0,
        s.len() == 0 ==> wrapped(s, max_cols) == seq![Seq::<char>::empty()],
{
    lemma_lines_start(s, max_cols);
    lemma_lines_full(s, max_cols);
    if s.len() == 0 {
        assert(wrapped(s, max_cols) =~= seq![Seq::<char>::empty()]);
    }
}

/// Wrapping drops nothing but spaces and keeps the order of what it keeps.
pub proof fn wrapped_lines_keep_text(s: Seq<char>, max_cols: nat)
    ensures
        unspaced(joined(wrapped(s, max_cols))) == unspaced(s),
{
    let w = wrap_all(s, max_cols);
    lemma_wrap_all(s, max_cols);
    lemma_joined_push(w.lines, w.line);
    if w.line.len() == 0 {
        assert(joined(w.lines) + w.line =~= joined(w.lines));
    }
}

/// Breaks `text` into lines of at most `max_cols` columns. Spaces at the start of a line
/// are dropped, save those that the text itself starts with.
pub fn wrap_display_cols(text: &str, max_cols: usize) -> (lines: Vec<String>)
    ensures
        texts(lines@) == wrapped(text@, max_cols as nat),
        lines@.len() > 0,
        forall|i: int|
            1 <= i < lines@.len() ==> (#[trigger] lines@[i])@.len() > 0 && lines@[i]@[0] != ' ',
{
    let chars = chars_of(text);
    let mut lines: Vec<String> = Vec::new();
    let mut line = String::new();
    let mut cols: usize = 0;
    let mut i: usize = 0;
    proof {
        assert(texts(lines@) =~= Seq::<Seq<char>>::empty());
        assert(text@.take(0) =~= Seq::<char>::empty());
    }
    while i < chars.len()
        invariant
            i <= chars@.len(),
            chars@ == text@,
            cols <= max_cols || cols <= 3,
            ({
                let w = wrap_all(text@.take(i as int), max_cols as nat);
                texts(lines@) == w.lines && line@ == w.line && cols == w.cols
            }),
        decreases chars@.len() - i,
    {
        let ch: char = chars[i];
        let w: usize = cell_width_of(ch);
        proof {
            assert(text@.take(i + 1).drop_last() =~= text@.take(i as int));
            assert(text@.take(i + 1).last() == ch);
        }
        i += 1;
        if ch == ' ' && lines.len() > 0 && line.as_str().is_empty() {
            proof {
                assert(texts(lines@).len() == lines@.len());
            }
        } else if w == 0 {
            line.push(ch);
        } else if cols > 0 && (cols > max_cols || w > max_cols - cols) {
            let ghost before = texts(lines@);
            let full = line;
            proof {
                assert(texts(lines@.push(full)) =~= before.push(full@));
                assert(Seq::<char>::empty().push(ch) =~= seq![ch]);
            }
            lines.push(full);
            line = String::new();
            cols = 0;
            if ch != ' ' {
                line.push(ch);
                cols = w;
            }
        } else {
            line.push(ch);
            cols += w;
        }
    }
    proof {
        assert(text@.take(i as int) =~= text@);
        assert(texts(lines@.push(line)) =~= texts(lines@).push(line@));
    }
    if !line.as_str().is_empty() || lines.is_empty() {
        lines.push(line);
    }
    proof {
        wrapped_lines_start_with_text(text@, max_cols as nat);
        assert forall|i: int| 1 <= i < lines@.len() implies (#[trigger] lines@[i])@.len() > 0
            && lines@[i]@[0] != ' ' by {
            assert(lines@[i]@ == wrapped(text@, max_cols as nat)[i]);
        }
    }
    lines
}

/// `s` without the characters that take no column.
pub open spec fn visible(s: Seq<char>) -> Seq<char>
    decreases s.len(),
{
    if s.len() == 0 {
        Seq::empty()
    } else if cell_width(s.last()) == 0 {
        visible(s.drop_last())
    } else {
        visible(s.drop_last()).push(s.last())
    }
}

/// The first `n` visible characters are the longest run from the left that fits
/// `width` columns.
pub open spec fn fits_first(s: Seq<char>, n: int, width: nat) -> bool {
    let v = visible(s);
    &&& 0 <= n <= v.len()
    &&& cells(v.take(n)) <= width
    &&& n < v.len() ==> cells(v.take(n + 1)) > width
}

/// `out` is the longest run of visible characters of `s` from the left that fits
/// `width` columns, filled up with spaces.
pub open spec fn is_padded(s: Seq<char>, width: nat, out: Seq<char>) -> bool {
    exists|n: int| #[trigger]
        fits_first(s, n, width) && out == visible(s).take(n) + repeated(
            ' ',
            (width - cells(visible(s).take(n))) as nat,
        )
}

proof fn lemma_visible_prefix(s: Seq<char>, k: int)
    requires
        0 <= k <= s.len(),
    ensures
        visible(s.take(k)).len() <= visible(s).len(),
        visible(s.take(k)) == visible(s).take(visible(s.take(k)).len() as int),
    decreases s.len() - k,
{
    if k == s.len() {
        assert(s.take(k) =~= s);
        assert(visible(s).take(visible(s).len() as int) =~= visible(s));
    } else {
        lemma_visible_prefix(s, k + 1);
        assert(s.take(k + 1).drop_last() =~= s.take(k));
        let a = visible(s.take(k));
        assert(a =~= visible(s.take(k + 1)).take(a.len() as int));
        assert(a =~= visible(s).take(a.len() as int));
    }
}

proof fn lemma_cells_blank(s: Seq<char>, n: nat)
    requires
        cell_width(' ') == 1,
    ensures
        cells(s + repeated(' ', n)) == cells(s) + n,
    decreases n,
{
    if n == 0 {
        assert(s + repeated(' ', n) =~= s);
    } else {
        lemma_cells_blank(s, (n - 1) as nat);
        assert((s + repeated(' ', n)).drop_last() =~= s + repeated(' ', (n - 1) as nat));
    }
}

/// Every character takes a column or more.
pub open spec fn all_visible(s: Seq<char>) -> bool {
    forall|i: int| 0 <= i < s.len() ==> cell_width(#[trigger] s[i]) > 0
}

proof fn lemma_visible_is_visible(s: Seq<char>)
    ensures
        all_visible(visible(s)),
        all_visible(s) ==> visible(s) == s,
    decreases s.len(),
{
    if s.len() > 0 {
        lemma_visible_is_visible(s.drop_last());
        if all_visible(s) {
            assert(cell_width(s[s.len() - 1]) > 0);
            assert forall|i: int| 0 <= i < s.drop_last().len() implies cell_width(
                #[trigger] s.drop_last()[i],
            ) > 0 by {
                assert(cell_width(s[i]) > 0);
            }
            assert(s.drop_last().push(s.last()) =~= s);
        }
    } else {
        assert(visible(s) =~= s);
    }
}

proof fn lemma_cells_prefix(s: Seq<char>, k: int)
    requires
        0 <= k <= s.len(),
    ensures
        cells(s.take(k)) <= cells(s),
    decreases s.len() - k,
{
    if k == s.len() {
        assert(s.take(k) =~= s);
    } else {
        lemma_cells_prefix(s, k + 1);
        assert(s.take(k + 1).drop_last() =~= s.take(k));
    }
}

/// Padding twice is padding once: a text that was padded to a width is left as it is by
/// padding it to that width. A space takes one column.
pub proof fn padding_twice_is_padding_once(
    s: Seq<char>,
    width: nat,
    out: Seq<char>,
    again: Seq<char>,
)
    ensures
        cell_width(' ') == 1 && is_padded(s, width, out) && is_padded(out, width, again) ==> again
            == out,
{
    if cell_width(' ') == 1 && is_padded(s, width, out) && is_padded(out, width, again) {
        let n = choose|n: int| #[trigger]
            fits_first(s, n, width) && out == visible(s).take(n) + repeated(
                ' ',
                (width - cells(visible(s).take(n))) as nat,
            );
        let kept = visible(s).take(n);
        let blanks = repeated(' ', (width - cells(kept)) as nat);
        lemma_visible_is_visible(s);
        lemma_cells_blank(kept, (width - cells(kept)) as nat);
        assert forall|i: int| 0 <= i < out.len() implies cell_width(#[trigger] out[i]) > 0 by {
            if i < n {
                assert(out[i] == visible(s)[i]);
            } else {
                assert(out[i] == blanks[i - n]);
            }
        }
        lemma_visible_is_visible(out);
        let m = choose|m: int| #[trigger]
            fits_first(out, m, width) && again == visible(out).take(m) + repeated(
                ' ',
                (width - cells(visible(out).take(m))) as nat,
            );
        if m < out.len() {
            lemma_cells_prefix(out, m + 1);
        }
        assert(out.take(m) =~= out);
        assert(again =~= out);
    }
}

/// Cuts or pads `text` to exactly `width` columns. A wide character that would cross
/// the edge is dropped and padded over.
pub fn nebula_pad_to_cells(text: &str, width: usize) -> (out: String)
    ensures
        cells(out@) == width,
        is_padded(text@, width as nat, out@),
        forall|again: Seq<char>| #[trigger]
            is_padded(out@, width as nat, again) ==> again == out@,
{
    let chars = chars_of(text);
    let mut out = String::new();
    let mut used: usize = 0;
    let mut i: usize = 0;
    let ghost mut n: int = 0;
    proof {
        assert(text@.take(0) =~= Seq::<char>::empty());
        assert(visible(text@).take(0) =~= Seq::<char>::empty());
        if text@.len() == 0 {
            assert(text@ =~= Seq::<char>::empty());
        }
    }
    while i < chars.len()
        invariant_except_break
            n == visible(text@.take(i as int)).len(),
            i == chars@.len() ==> n == visible(text@).len(),
        invariant
            i <= chars@.len(),
            chars@ == text@,
            0 <= n <= visible(text@).len(),
            out@ == visible(text@).take(n),
            used == cells(out@),
            used <= width,
        ensures
            fits_first(text@, n, width as nat),
        decreases chars@.len() - i,
    {
        let c: char = chars[i];
        let w: usize = cell_width_of(c);
        proof {
            assert(text@.take(i + 1).drop_last() =~= text@.take(i as int));
            lemma_visible_prefix(text@, i as int);
            lemma_visible_prefix(text@, i + 1);
        }
        if w > 0 {
            proof {
                assert(visible(text@.take(i + 1)).last() == c);
                assert(visible(text@)[n] == c);
                assert(visible(text@).take(n + 1) =~= visible(text@).take(n).push(c));
                lemma_cells_push(out@, c);
            }
            if w > width - used {
                break;
            }
            out.push(c);
            used += w;
            proof {
                n = n + 1;
            }
        }
        i += 1;
        proof {
            if i == chars.len() {
                assert(text@.take(i as int) =~= text@);
            }
        }
    }
    let blank: usize = cell_width_of(' ');
    let ghost kept = out@;
    let mut k: usize = used;
    proof {
        assert(kept + repeated(' ', 0) =~= kept);
    }
    while k < width
        invariant
            used <= k <= width,
            out@ == kept + repeated(' ', (k - used) as nat),
        decreases width - k,
    {
        out.push(' ');
        proof {
            assert(kept + repeated(' ', (k + 1 - used) as nat) =~= (kept + repeated(
                ' ',
                (k - used) as nat,
            )).push(' '));
        }
        k += 1;
    }
    proof {
        assert(blank == 1);
        lemma_cells_blank(kept, (width - used) as nat);
        assert(is_padded(text@, width as nat, out@));
        assert forall|again: Seq<char>| #[trigger]
            is_padded(out@, width as nat, again) implies again == out@ by {
            padding_twice_is_padding_once(text@, width as nat, out@, again);
        }
    }
    out
}

/// What is visible of a text is what takes columns, in its order, and what is left of it
/// without blanks is everything else.
pub proof fn visible_text_takes_columns(s: Seq<char>)
    ensures
        visible(s) == s.filter(|c: char| cell_width(c) > 0),
        wide_count(s) == visible(s).len(),
        unspaced(s) == s.filter(|c: char| c != ' '),
        cells(visible(s)) == cells(s),
    decreases s.len(),
{
    reveal(Seq::filter);
    let takes = |c: char| cell_width(c) > 0;
    let ink = |c: char| c != ' ';
    if s.len() > 0 {
        visible_text_takes_columns(s.drop_last());
        if cell_width(s.last()) > 0 {
            lemma_cells_push(visible(s.drop_last()), s.last());
        }
    } else {
        assert(visible(s) =~= s);
        assert(unspaced(s) =~= s);
    }
    assert(visible(s) == s.filter(takes));
    assert(unspaced(s) == s.filter(ink));
}

/// Of a text that has to fit, as much is shown as fits: no longer part would.
pub proof fn shown_part_is_the_longest(s: Seq<char>, n: int, m: int, width: nat)
    requires
        fits_first(s, n, width),
        0 <= m <= visible(s).len(),
    ensures
        cells(visible(s).take(m)) <= width ==> m <= n,
        cells(s) <= width ==> n == visible(s).len(),
{
    let v = visible(s);
    if m > n {
        lemma_cells_prefix(v.take(m), n + 1);
        assert(v.take(m).take(n + 1) =~= v.take(n + 1));
    }
    visible_text_takes_columns(s);
    if n < v.len() {
        lemma_cells_prefix(v, n + 1);
    }
}

/// A padded text begins with what of it fits and has blanks behind that, up to its width.
pub proof fn padded_text_fills_its_width(s: Seq<char>, width: nat, out: Seq<char>)
    requires
        is_padded(s, width, out),
    ensures
        cell_width(' ') == 1 ==> cells(out) == width,
        exists|n: int|
            0 <= n <= visible(s).len() && n <= out.len() && #[trigger] out.take(n) == visible(s).take(n)
                && (forall|i: int| n <= i < out.len() ==> #[trigger] out[i] == ' '),
        cells(s) <= width ==> out.len() >= visible(s).len() && out.take(visible(s).len() as int)
            == visible(s),
{
    let v = visible(s);
    let n = choose|n: int| #[trigger]
        fits_first(s, n, width) && out == v.take(n) + repeated(
            ' ',
            (width - cells(v.take(n))) as nat,
        );
    let gap = (width - cells(v.take(n))) as nat;
    assert(out.take(n) =~= v.take(n));
    assert forall|i: int| n <= i < out.len() implies #[trigger] out[i] == ' ' by {
        assert(out[i] == repeated(' ', gap)[i - n]);
    }
    if cell_width(' ') == 1 {
        lemma_cells_blank(v.take(n), gap);
    }
    if cells(s) <= width {
        shown_part_is_the_longest(s, n, n, width);
        assert(v.take(n) =~= v);
    }
}

/// Wrapped lines hold the text in its order, each fits unless one character alone does not,
/// and none begins with a blank but the first.
pub proof fn wrapped_text_is_whole(text: &str, max_cols: usize, lines: Vec<String>)
    requires
        call_ensures(wrap_display_cols, (text, max_cols), lines),
    ensures
        lines@.len() > 0,
        text@.filter(|c: char| c != ' ') == joined(texts(lines@)).filter(|c: char| c != ' '),
        forall|i: int| 0 <= i < lines@.len() ==> line_fits((#[trigger] lines@[i])@, max_cols as nat),
        forall|i: int|
            1 <= i < lines@.len() ==> (#[trigger] lines@[i])@.len() > 0 && lines@[i]@[0] != ' ',
{
    let t = texts(lines@);
    assert(t.len() == lines@.len());
    wrapped_lines_keep_text(text@, max_cols as nat);
    wrapped_lines_fit(text@, max_cols as nat);
    visible_text_takes_columns(text@);
    visible_text_takes_columns(joined(t));
    assert forall|i: int| 0 <= i < lines@.len() implies line_fits(
        (#[trigger] lines@[i])@,
        max_cols as nat,
    ) by {
        assert(t[i] == lines@[i]@);
        assert(line_fits(t[i], max_cols as nat));
    }
}

/// A padded text has its width, and is the text with blanks behind it where that fits.
pub proof fn padded_text_keeps_what_fits(text: &str, width: usize, out: String)
    requires
        call_ensures(nebula_pad_to_cells, (text, width), out),
    ensures
        cells(out@) == width,
        cells(text@) <= width ==> out@.len() >= visible(text@).len() && out@.take(
            visible(text@).len() as int,
        ) == text@.filter(|c: char| cell_width(c) > 0),
{
    padded_text_fills_its_width(text@, width as nat, out@);
    visible_text_takes_columns(text@);
}

} // verus!
