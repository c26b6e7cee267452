//! The key bindings page: search, clashes, capture and assignment.
use crate::fields::{printable, printable_chars, spliced, TextField};
use crate::fx::Fx;
use crate::lang::UiLanguage;
use crate::page::{PageState, TextDrag};
use crate::text::{concat3, is_control, lowercase, lowercase_of, same_text};
use crate::words::{eq_ignore_ascii_case, lowered, trim_chars, trimmed};
use vstd::prelude::*;

verus! {

/// The row of the key that opens the quick terminal. Every other row is an action.
pub const QUICK_TERMINAL_ROW: usize = 0;

/// A row of the page: its names and the keys it shows, nothing where none is bound.
#[derive(Debug)]
pub struct KeymapRow {
    pub zh: String,
    pub en: String,
    pub combo: Option<String>,
}

/// A key that was bound to an action by the user.
#[derive(Debug)]
pub struct Keybind {
    pub combo: String,
    pub action: String,
}

/// The key bindings page. `rebuild` tells that the bindings in force have to be built
/// from `keybinds` again.
#[derive(Debug)]
pub struct KeymapState {
    pub query: TextField,
    pub search_focus: bool,
    pub capture: Option<usize>,
    pub preview: String,
    pub keybinds: Vec<Keybind>,
    pub rebuild: bool,
    pub quick_hotkey: String,
    pub quick_error: Option<String>,
    pub quick_request: Option<String>,
}

/// Whether `part` occurs in `s`.
pub open spec fn contains_text(s: Seq<char>, part: Seq<char>) -> bool {
    exists|i: int| occurs_at(s, part, i)
}

/// Whether `part` occurs in `s` at `i`.
pub open spec fn occurs_at(s: Seq<char>, part: Seq<char>, i: int) -> bool {
    0 <= i && i + part.len() <= s.len() && s.subrange(i, i + part.len()) == part
}

fn occurs_here(s: &Vec<char>, part: &Vec<char>, i: usize) -> (r: bool)
    requires
        i + part@.len() <= s@.len(),
    ensures
        r == occurs_at(s@, part@, i as int),
{
    let mut k: usize = 0;
    let len: usize = s.len();
    while k < part.len()
        invariant
            k <= part@.len(),
            i + part@.len() <= s@.len(),
            s@.len() == len,
            forall|m: int| 0 <= m < k ==> #[trigger] s@[i + m] == part@[m],
        decreases part@.len() - k,
    {
        if s[i + k] != part[k] {
            proof {
                assert(s@.subrange(i as int, i + part@.len())[k as int] == s@[i + k]);
            }
            return false;
        }
        k += 1;
    }
    proof {
        assert forall|m: int| 0 <= m < part@.len() implies s@.subrange(
            i as int,
            i + part@.len(),
        )[m] == part@[m] by {
            assert(s@[i + m] == part@[m]);
        }
        assert(s@.subrange(i as int, i + part@.len()) =~= part@);
    }
    true
}

/// Whether `part` occurs in `s`.
pub fn text_contains(s: &str, part: &str) -> (r: bool)
    ensures
        r == contains_text(s@, part@),
{
    let a = crate::text::chars_of(s);
    let b = crate::text::chars_of(part);
    if b.len() > a.len() {
        return false;
    }
    let last: usize = a.len() - b.len();
    let mut i: usize = 0;
    while i < last
        invariant
            a@ == s@,
            b@ == part@,
            last + b@.len() == a@.len(),
            i <= last,
            forall|k: int| 0 <= k < i ==> !#[trigger] occurs_at(s@, part@, k),
        decreases last - i,
    {
        if occurs_here(&a, &b, i) {
            return true;
        }
        i += 1;
    }
    let r: bool = occurs_here(&a, &b, last);
    proof {
        if !r {
            assert forall|k: int| !#[trigger] occurs_at(s@, part@, k) by {
                if occurs_at(s@, part@, k) {
                    assert(k <= last);
                }
            }
        }
    }
    r
}

/// What a row is searched in: both names and the keys, in lower case.
pub open spec fn haystack(row: KeymapRow) -> Seq<char> {
    let combo = match row.combo {
        Some(c) => c@,
        None => Seq::<char>::empty(),
    };
    lowercase(row.zh@ + " "@ + row.en@ + " "@ + combo)
}

/// What is searched for.
pub open spec fn needle(query: Seq<char>) -> Seq<char> {
    lowercase(trimmed(query))
}

/// Whether the search shows the row. An empty search shows every row.
pub open spec fn matches_query(row: KeymapRow, query: Seq<char>) -> bool {
    needle(query).len() == 0 || contains_text(haystack(row), needle(query))
}

/// The first `n` rows that the search shows, in order.
pub open spec fn shown_rows(rows: Seq<KeymapRow>, query: Seq<char>, n: int) -> Seq<usize>
    decreases n,
{
    if n <= 0 {
        Seq::empty()
    } else if matches_query(rows[n - 1], query) {
        shown_rows(rows, query, n - 1).push((n - 1) as usize)
    } else {
        shown_rows(rows, query, n - 1)
    }
}

/// What the search looks for, handed to the rows.
pub fn row_matches(row: &KeymapRow, needle: &str) -> (r: bool)
    ensures
        r == (needle@.len() == 0 || contains_text(haystack(*row), needle@)),
{
    if needle.is_empty() {
        return true;
    }
    let combo: String = match &row.combo {
        Some(c) => c.clone(),
        None => {
            let none = String::new();
            proof {
                assert(none@ =~= Seq::<char>::empty());
            }
            none
        },
    };
    let names = concat3(row.zh.as_str(), " ", row.en.as_str());
    let text = concat3(names.as_str(), " ", combo.as_str());
    let hay = lowercase_of(text.as_str());
    text_contains(hay.as_str(), needle)
}

/// Whether two rows are bound to the same keys, whatever the case of the letters.
pub open spec fn clashes(rows: Seq<KeymapRow>, a: int, b: int) -> bool {
    &&& 0 <= a < rows.len()
    &&& 0 <= b < rows.len()
    &&& a != b
    &&& rows[a].combo is Some
    &&& rows[b].combo is Some
    &&& (rows[a].combo->0)@.len() > 0
    &&& (rows[b].combo->0)@.len() > 0
    &&& lowered((rows[a].combo->0)@) == lowered((rows[b].combo->0)@)
}

/// Whether a row shares its keys with another one.
pub open spec fn in_clash(rows: Seq<KeymapRow>, a: int) -> bool {
    exists|b: int| #[trigger] clashes(rows, a, b)
}

/// Whether `a` and `b` are the first two rows that share their keys.
pub open spec fn first_clash(rows: Seq<KeymapRow>, a: int, b: int) -> bool {
    &&& a < b
    &&& clashes(rows, a, b)
    &&& forall|x: int, y: int| x < y && #[trigger] clashes(rows, x, y) ==> a < x || (a == x
        && b <= y)
}

/// The hint about two rows that share their keys: only the first one works.
pub open spec fn clash_note(
    rows: Seq<KeymapRow>,
    a: int,
    b: int,
    language: UiLanguage,
) -> Seq<char> {
    let combo = (rows[a].combo->0)@;
    let first = language.picked(rows[a].zh@, rows[a].en@);
    let second = language.picked(rows[b].zh@, rows[b].en@);
    language.picked(
        combo + " 同时绑定了「"@ + first + "」与「"@ + second + "」——只有排前面的「"@ + first
            + "」会触发"@,
        combo + " is bound to both "@ + first + " and "@ + second + " — only "@ + first
            + ", listed first, fires"@,
    )
}

fn clash_note_text(
    combo: &str,
    first: &str,
    second: &str,
    language: UiLanguage,
) -> (s: String)
    ensures
        s@ == language.picked(
            combo@ + " 同时绑定了「"@ + first@ + "」与「"@ + second@ + "」——只有排前面的「"@
                + first@ + "」会触发"@,
            combo@ + " is bound to both "@ + first@ + " and "@ + second@ + " — only "@ + first@
                + ", listed first, fires"@,
        ),
{
    let mut s: String = combo.to_owned();
    s.append(language.pick(" 同时绑定了「", " is bound to both "));
    s.append(first);
    s.append(language.pick("」与「", " and "));
    s.append(second);
    s.append(language.pick("」——只有排前面的「", " — only "));
    s.append(first);
    s.append(language.pick("」会触发", ", listed first, fires"));
    s
}

fn rows_clash(rows: &Vec<KeymapRow>, a: usize, b: usize) -> (r: bool)
    requires
        a < rows@.len(),
        b < rows@.len(),
        a != b,
    ensures
        r == clashes(rows@, a as int, b as int),
{
    match (&rows[a].combo, &rows[b].combo) {
        (Some(x), Some(y)) => {
            !x.as_str().is_empty() && !y.as_str().is_empty() && eq_ignore_ascii_case(
                x.as_str(),
                y.as_str(),
            )
        },
        _ => false,
    }
}

/// Which rows share their keys with another one, and a hint about the first two of them.
pub fn keymap_clash_info(rows: &Vec<KeymapRow>, language: UiLanguage) -> (r: (
    Vec<bool>,
    Option<String>,
))
    ensures
        r.0@.len() == rows@.len(),
        forall|i: int| 0 <= i < rows@.len() ==> #[trigger] r.0@[i] == in_clash(rows@, i),
        match r.1 {
            Some(note) => exists|a: int, b: int| #[trigger]
                first_clash(rows@, a, b) && note@ == clash_note(rows@, a, b, language),
            None => forall|a: int, b: int| !#[trigger] clashes(rows@, a, b),
        },
{
    let total: usize = rows.len();
    let mut marks: Vec<bool> = Vec::new();
    let mut i: usize = 0;
    while i < total
        invariant
            i <= total,
            marks@.len() == i,
            forall|k: int| 0 <= k < i ==> !#[trigger] marks@[k],
        decreases total - i,
    {
        marks.push(false);
        i += 1;
    }
    let mut first: Option<(usize, usize)> = None;
    let mut a: usize = 0;
    while a < total
        invariant
            total == rows@.len(),
            a <= total,
            marks@.len() == total,
            forall|k: int|
                0 <= k < total ==> #[trigger] marks@[k] == clash_seen(rows@, k, a as int, 0),
            match first {
                Some((x, y)) => first_clash(rows@, x as int, y as int),
                None => forall|x: int, y: int| x < a && x < y ==> !#[trigger] clashes(rows@, x, y),
            },
        decreases total - a,
    {
        let mut b: usize = a + 1;
        proof {
            lemma_seen_row_start(rows@, marks@, a as int);
        }
        while b < total
            invariant
                total == rows@.len(),
                a < total,
                a < b <= total,
                marks@.len() == total,
                forall|k: int|
                    0 <= k < total ==> #[trigger] marks@[k] == clash_seen(
                        rows@,
                        k,
                        a as int,
                        b as int,
                    ),
                match first {
                    Some((x, y)) => first_clash(rows@, x as int, y as int),
                    None => forall|x: int, y: int|
                        x < y && (x < a || (x == a && y < b)) ==> !#[trigger] clashes(rows@, x, y),
                },
            decreases total - b,
        {
            let clash: bool = rows_clash(rows, a, b);
            let ghost before = marks@;
            if clash {
                marks.set(a, true);
                marks.set(b, true);
                if first.is_none() {
                    first = Some((a, b));
                }
            }
            proof {
                lemma_seen_step(rows@, before, marks@, a as int, b as int);
            }
            b += 1;
        }
        proof {
            lemma_seen_row_end(rows@, marks@, a as int);
        }
        a += 1;
    }
    proof {
        assert forall|k: int| 0 <= k < total implies #[trigger] marks@[k] == in_clash(rows@, k) by {
            if in_clash(rows@, k) {
                let m = choose|m: int| #[trigger] clashes(rows@, k, m);
                assert(clashes(rows@, m, k));
                assert(seen_pair(rows@, k, m, a as int, 0));
            }
            if clash_seen(rows@, k, a as int, 0) {
                let m = choose|m: int| #[trigger] seen_pair(rows@, k, m, a as int, 0);
                assert(clashes(rows@, k, m));
            }
        }
    }
    let note: Option<String> = match first {
        Some((x, y)) => {
            let n = clash_note_text(
                match &rows[x].combo {
                    Some(c) => c.as_str(),
                    None => "",
                },
                language.pick(rows[x].zh.as_str(), rows[x].en.as_str()),
                language.pick(rows[y].zh.as_str(), rows[y].en.as_str()),
                language,
            );
            proof {
                assert(first_clash(rows@, x as int, y as int));
                assert(n@ == clash_note(rows@, x as int, y as int, language));
            }
            Some(n)
        },
        None => {
            proof {
                assert forall|x: int, y: int| !#[trigger] clashes(rows@, x, y) by {
                    if clashes(rows@, x, y) {
                        assert(clashes(rows@, y, x));
                    }
                }
            }
            None
        },
    };
    (marks, note)
}

/// Whether `k` shares its keys with `m` and the pair lies before row `a`, or in it before
/// column `b`.
spec fn seen_pair(rows: Seq<KeymapRow>, k: int, m: int, a: int, b: int) -> bool {
    let lo = if k < m {
        k
    } else {
        m
    };
    let hi = if k < m {
        m
    } else {
        k
    };
    clashes(rows, k, m) && (lo < a || (lo == a && hi < b))
}

spec fn clash_seen(rows: Seq<KeymapRow>, k: int, a: int, b: int) -> bool {
    exists|m: int| #[trigger] seen_pair(rows, k, m, a, b)
}

proof fn lemma_seen_row_start(rows: Seq<KeymapRow>, marks: Seq<bool>, a: int)
    requires
        0 <= a < rows.len(),
        marks.len() == rows.len(),
        forall|k: int| 0 <= k < rows.len() ==> #[trigger] marks[k] == clash_seen(rows, k, a, 0),
    ensures
        forall|k: int| 0 <= k < rows.len() ==> #[trigger] marks[k] == clash_seen(rows, k, a, a + 1),
{
    assert forall|k: int| 0 <= k < rows.len() implies #[trigger] marks[k] == clash_seen(
        rows,
        k,
        a,
        a + 1,
    ) by {
        if clash_seen(rows, k, a, a + 1) {
            let m = choose|m: int| #[trigger] seen_pair(rows, k, m, a, a + 1);
            assert(seen_pair(rows, k, m, a, 0));
        }
        if clash_seen(rows, k, a, 0) {
            let m = choose|m: int| #[trigger] seen_pair(rows, k, m, a, 0);
            assert(seen_pair(rows, k, m, a, a + 1));
        }
    }
}

proof fn lemma_seen_row_end(rows: Seq<KeymapRow>, marks: Seq<bool>, a: int)
    requires
        0 <= a < rows.len(),
        marks.len() == rows.len(),
        forall|k: int|
            0 <= k < rows.len() ==> #[trigger] marks[k] == clash_seen(
                rows,
                k,
                a,
                rows.len() as int,
            ),
    ensures
        forall|k: int| 0 <= k < rows.len() ==> #[trigger] marks[k] == clash_seen(rows, k, a + 1, 0),
{
    let n = rows.len() as int;
    assert forall|k: int| 0 <= k < rows.len() implies #[trigger] marks[k] == clash_seen(
        rows,
        k,
        a + 1,
        0,
    ) by {
        if clash_seen(rows, k, a + 1, 0) {
            let m = choose|m: int| #[trigger] seen_pair(rows, k, m, a + 1, 0);
            assert(seen_pair(rows, k, m, a, n));
        }
        if clash_seen(rows, k, a, n) {
            let m = choose|m: int| #[trigger] seen_pair(rows, k, m, a, n);
            assert(seen_pair(rows, k, m, a + 1, 0));
        }
    }
}

proof fn lemma_seen_step(
    rows: Seq<KeymapRow>,
    before: Seq<bool>,
    marks: Seq<bool>,
    a: int,
    b: int,
)
    requires
        0 <= a < b < rows.len(),
        before.len() == rows.len(),
        forall|k: int| 0 <= k < rows.len() ==> #[trigger] before[k] == clash_seen(rows, k, a, b),
        marks == (if clashes(rows, a, b) {
            before.update(a, true).update(b, true)
        } else {
            before
        }),
    ensures
        forall|k: int| 0 <= k < rows.len() ==> #[trigger] marks[k] == clash_seen(rows, k, a, b + 1),
{
    assert forall|k: int| 0 <= k < rows.len() implies #[trigger] marks[k] == clash_seen(
        rows,
        k,
        a,
        b + 1,
    ) by {
        assert(before[k] == clash_seen(rows, k, a, b));
        if clash_seen(rows, k, a, b) {
            let m = choose|m: int| #[trigger] seen_pair(rows, k, m, a, b);
            assert(seen_pair(rows, k, m, a, b + 1));
        }
        if clash_seen(rows, k, a, b + 1) {
            let m = choose|m: int| #[trigger] seen_pair(rows, k, m, a, b + 1);
            if !seen_pair(rows, k, m, a, b) {
                assert((k == a && m == b) || (k == b && m == a));
                assert(clashes(rows, a, b));
            }
        }
        if clashes(rows, a, b) {
            assert(clashes(rows, b, a));
            if k == a {
                assert(seen_pair(rows, a, b, a, b + 1));
            }
            if k == b {
                assert(seen_pair(rows, b, a, a, b + 1));
            }
        }
    }
}

/// A clash marks both rows: whichever row shares its keys with another one, that one does
/// so with it.
pub proof fn clashes_are_mutual(rows: Seq<KeymapRow>, a: int, b: int)
    requires
        clashes(rows, a, b),
    ensures
        clashes(rows, b, a),
        in_clash(rows, a),
        in_clash(rows, b),
{
    assert(clashes(rows, b, a));
}

/// The rows that a search shows.
fn visible_rows(rows: &Vec<KeymapRow>, query: &TextField) -> (r: Vec<usize>)
    ensures
        r@ == shown_rows(rows@, query.text@, rows@.len() as int),
        trimmed(query.text@).len() == 0 ==> r@ == Seq::new(rows@.len(), |i: int| i as usize),
{
    let wanted = trim_chars(&query.text);
    let needle = lowercase_of(wanted.as_str());
    let mut r: Vec<usize> = Vec::new();
    let mut i: usize = 0;
    while i < rows.len()
        invariant
            i <= rows@.len(),
            needle@ == lowercase(trimmed(query.text@)),
            trimmed(query.text@).len() == 0 ==> needle@.len() == 0,
            r@ == shown_rows(rows@, query.text@, i as int),
            trimmed(query.text@).len() == 0 ==> r@ == Seq::new(i as nat, |k: int| k as usize),
        decreases rows@.len() - i,
    {
        if row_matches(&rows[i], needle.as_str()) {
            r.push(i);
        }
        proof {
            if trimmed(query.text@).len() == 0 {
                assert(r@ =~= Seq::new((i + 1) as nat, |k: int| k as usize));
            }
        }
        i += 1;
    }
    r
}

/// How many of the shown rows lie between two rows.
pub open spec fn shown_between(shown: Seq<usize>, from: int, to: int) -> nat
    decreases shown.len(),
{
    if shown.len() == 0 {
        0
    } else if from <= shown.last() < to {
        shown_between(shown.drop_last(), from, to) + 1
    } else {
        shown_between(shown.drop_last(), from, to)
    }
}

fn count_between(shown: &Vec<usize>, from: usize, to: usize) -> (n: usize)
    ensures
        n == shown_between(shown@, from as int, to as int),
{
    let mut n: usize = 0;
    let mut i: usize = 0;
    proof {
        assert(shown@.take(0) =~= Seq::<usize>::empty());
    }
    while i < shown.len()
        invariant
            i <= shown@.len(),
            n <= i,
            n == shown_between(shown@.take(i as int), from as int, to as int),
        decreases shown@.len() - i,
    {
        proof {
            assert(shown@.take(i + 1).drop_last() =~= shown@.take(i as int));
        }
        if from <= shown[i] && shown[i] < to {
            n += 1;
        }
        i += 1;
    }
    proof {
        assert(shown@.take(i as int) =~= shown@);
    }
    n
}

/// The row that group `g` starts at, in groups of these sizes.
pub open spec fn group_start(sizes: Seq<usize>, g: int) -> nat
    decreases g,
{
    if g <= 0 {
        0
    } else {
        group_start(sizes, g - 1) + sizes[g - 1] as nat
    }
}

proof fn lemma_group_start_grows(sizes: Seq<usize>, g: int, h: int)
    requires
        0 <= g <= h,
    ensures
        group_start(sizes, g) <= group_start(sizes, h),
    decreases h - g,
{
    if g < h {
        lemma_group_start_grows(sizes, g, h - 1);
    }
}

/// What the layout of the page needs to know: the shown rows of each group, the shown
/// fixed rows, and whether there is a hint about a clash.
#[derive(Debug)]
pub struct KeymapPaneState {
    pub visible: Vec<usize>,
    pub readonly_visible: usize,
    pub clash: bool,
}

/// The bindings that stay when `combo` goes to the action `name`: a key has one action,
/// and an action one key.
pub open spec fn kept_binds(binds: Seq<Keybind>, combo: Seq<char>, name: Seq<char>) -> Seq<Keybind>
    decreases binds.len(),
{
    if binds.len() == 0 {
        Seq::empty()
    } else {
        let rest = kept_binds(binds.drop_last(), combo, name);
        if binds.last().combo@ != combo && lowered(binds.last().action@) != lowered(name) {
            rest.push(binds.last())
        } else {
            rest
        }
    }
}

/// Whether no key is bound twice, and no action either.
pub open spec fn one_to_one(binds: Seq<Keybind>) -> bool {
    forall|i: int, j: int|
        0 <= i < j < binds.len() ==> (#[trigger] binds[i]).combo@ != (#[trigger] binds[j]).combo@
            && lowered(binds[i].action@) != lowered(binds[j].action@)
}

proof fn lemma_kept_binds(binds: Seq<Keybind>, combo: Seq<char>, name: Seq<char>)
    ensures
        forall|i: int|
            0 <= i < kept_binds(binds, combo, name).len() ==> {
                let k = #[trigger] kept_binds(binds, combo, name)[i];
                &&& k.combo@ != combo
                &&& lowered(k.action@) != lowered(name)
                &&& binds.contains(k)
            },
        one_to_one(binds) ==> one_to_one(kept_binds(binds, combo, name)),
    decreases binds.len(),
{
    if binds.len() > 0 {
        let front = binds.drop_last();
        let rest = kept_binds(front, combo, name);
        let all = kept_binds(binds, combo, name);
        lemma_kept_binds(front, combo, name);
        assert forall|i: int| 0 <= i < all.len() implies {
            let k = #[trigger] all[i];
            &&& k.combo@ != combo
            &&& lowered(k.action@) != lowered(name)
            &&& binds.contains(k)
        } by {
            if i < rest.len() {
                assert(all[i] == rest[i]);
                let j = choose|j: int| 0 <= j < front.len() && front[j] == rest[i];
                assert(binds[j] == all[i]);
            } else {
                assert(binds[binds.len() - 1] == all[i]);
            }
        }
        if one_to_one(binds) {
            assert(one_to_one(front)) by {
                assert forall|i: int, j: int| 0 <= i < j < front.len() implies (
                #[trigger] front[i]).combo@ != (#[trigger] front[j]).combo@ && lowered(
                    front[i].action@,
                ) != lowered(front[j].action@) by {
                    assert(front[i] == binds[i] && front[j] == binds[j]);
                }
            }
            assert forall|i: int, j: int| 0 <= i < j < all.len() implies (
            #[trigger] all[i]).combo@ != (#[trigger] all[j]).combo@ && lowered(all[i].action@)
                != lowered(all[j].action@) by {
                assert(all[i] == rest[i]);
                if j < rest.len() {
                    assert(all[j] == rest[j]);
                } else {
                    let m = choose|m: int| 0 <= m < front.len() && front[m] == rest[i];
                    assert(binds[m] == all[i]);
                    assert(binds[binds.len() - 1] == all[j]);
                }
            }
        }
    }
}

/// Assigning a key keeps the bindings one to one: the key belongs to nothing else, and
/// the action has no other key.
pub proof fn assigned_key_is_unique(binds: Seq<Keybind>, bind: Keybind)
    ensures
        one_to_one(binds) ==> one_to_one(
            kept_binds(binds, bind.combo@, bind.action@).push(bind),
        ),
        forall|i: int|
            0 <= i < kept_binds(binds, bind.combo@, bind.action@).len() ==> (
            #[trigger] kept_binds(binds, bind.combo@, bind.action@)[i]).combo@ != bind.combo@,
{
    lemma_kept_binds(binds, bind.combo@, bind.action@);
}

/// Assigning keys to an action takes away the bindings of those keys and of that action, in
/// any case, and no other: what stays is the old list without them, in its order.
pub proof fn assigning_keeps_other_bindings(binds: Seq<Keybind>, combo: Seq<char>, name: Seq<char>)
    ensures
        kept_binds(binds, combo, name) == binds.filter(
            |b: Keybind| b.combo@ != combo && lowered(b.action@) != lowered(name),
        ),
        forall|i: int|
            0 <= i < binds.len() && (#[trigger] binds[i]).combo@ != combo && lowered(
                binds[i].action@,
            ) != lowered(name) ==> kept_binds(binds, combo, name).contains(binds[i]),
        forall|b: Keybind| #[trigger]
            kept_binds(binds, combo, name).contains(b) ==> binds.contains(b) && b.combo@ != combo
                && lowered(b.action@) != lowered(name),
    decreases binds.len(),
{
    let pred = |b: Keybind| b.combo@ != combo && lowered(b.action@) != lowered(name);
    reveal(Seq::filter);
    if binds.len() > 0 {
        assigning_keeps_other_bindings(binds.drop_last(), combo, name);
    } else {
        assert(kept_binds(binds, combo, name) =~= binds);
    }
    lemma_kept_binds(binds, combo, name);
    assert forall|i: int|
        0 <= i < binds.len() && (#[trigger] binds[i]).combo@ != combo && lowered(binds[i].action@)
            != lowered(name) implies kept_binds(binds, combo, name).contains(binds[i]) by {
        binds.lemma_filter_contains(pred, i);
    }
}

impl KeymapState {
    pub open spec fn wf(self) -> bool {
        self.query.wf()
    }

    /// Whether typing goes into the search. Capturing a key comes first.
    pub fn keymap_search_active(&self, settings_open: bool) -> (r: bool)
        ensures
            r == (settings_open && self.search_focus && self.capture is None),
    {
        settings_open && self.search_focus && self.capture.is_none()
    }

    pub fn focus_keymap_search(&mut self, fx: &mut Fx)
        ensures
            *final(self) == (KeymapState { search_focus: true, ..*old(self) }),
            *final(fx) == old(fx).following().touched(),
    {
        self.search_focus = true;
        fx.follow_caret();
        fx.touch();
    }

    pub fn blur_keymap_search(&mut self, fx: &mut Fx)
        ensures
            *final(self) == (KeymapState { search_focus: false, ..*old(self) }),
            *final(fx) == (if old(self).search_focus {
                old(fx).following().touched()
            } else {
                *old(fx)
            }),
    {
        if self.search_focus {
            self.search_focus = false;
            fx.follow_caret();
            fx.touch();
        }
    }

    /// `now` differs in the query only.
    pub open spec fn requeried(self, now: KeymapState) -> bool {
        &&& now == (KeymapState { query: now.query, ..self })
        &&& now.wf()
    }

    /// `now` is this state after `text` was typed into the search.
    pub open spec fn typed(self, now: KeymapState, text: Seq<char>) -> bool {
        let q = self.query;
        &&& self.requeried(now)
        &&& now.query.text@ == spliced(q.text@, q.selection().0, q.selection().1, text)
        &&& now.query.caret == q.selection().0 + text.len()
        &&& now.query.anchor is None
    }

    pub fn keymap_search_push(&mut self, ch: char, fx: &mut Fx)
        requires
            old(self).wf(),
            old(self).query.text@.len() < usize::MAX,
        ensures
            crate::text::is_control_char(ch) ==> *final(self) == *old(self)
                && *final(fx) == *old(fx),
            !crate::text::is_control_char(ch) ==> old(self).typed(*final(self), seq![ch])
                && *final(fx) == old(fx).touched(),
    {
        if is_control(ch) {
            return;
        }
        let mut one: Vec<char> = Vec::new();
        one.push(ch);
        proof {
            assert(one@ =~= seq![ch]);
        }
        self.query.insert(&one);
        fx.touch();
    }

    /// Types a text into the search, without its control characters.
    pub fn keymap_search_edit(&mut self, text: &str, fx: &mut Fx)
        requires
            old(self).wf(),
            old(self).query.text@.len() + text@.len() <= usize::MAX,
        ensures
            printable(text@).len() == 0 ==> *final(self) == *old(self) && *final(fx) == *old(fx),
            printable(text@).len() > 0 ==> old(self).typed(*final(self), printable(text@))
                && *final(fx) == old(fx).following().touched(),
    {
        let clean = printable_chars(text);
        proof {
            crate::rename::lemma_printable_len(text@);
        }
        if clean.len() == 0 {
            return;
        }
        self.query.insert(&clean);
        fx.follow_caret();
        fx.touch();
    }

    pub fn keymap_search_backspace(&mut self, fx: &mut Fx)
        requires
            old(self).wf(),
        ensures
            old(self).requeried(*final(self)),
            (final(self).query.text@, final(self).query.caret as int)
                == old(self).query.erased_back(),
            final(self).query.anchor is None,
            *final(fx) == old(fx).following().touched(),
    {
        self.query.backspace();
        fx.follow_caret();
        fx.touch();
    }

    pub fn keymap_search_delete_forward(&mut self, fx: &mut Fx)
        requires
            old(self).wf(),
        ensures
            old(self).requeried(*final(self)),
            final(self).query.text@ == old(self).query.erased_forward(),
            final(self).query.caret == old(self).query.selection().0,
            final(self).query.anchor is None,
            *final(fx) == old(fx).following().touched(),
    {
        self.query.delete_forward();
        fx.follow_caret();
        fx.touch();
    }

    pub fn keymap_search_move(&mut self, forward: bool, extend: bool, fx: &mut Fx)
        requires
            old(self).wf(),
        ensures
            old(self).requeried(*final(self)),
            final(self).query.text == old(self).query.text,
            final(self).query.caret == old(self).query.moved(
                if forward {
                    1
                } else {
                    -1
                },
                extend,
            ),
            final(self).query.anchor == old(self).query.anchored(extend),
            *final(fx) == old(fx).following().touched(),
    {
        let step: i32 = if forward {
            1
        } else {
            -1
        };
        self.query.move_by(step, extend);
        fx.follow_caret();
        fx.touch();
    }

    pub fn keymap_search_jump(&mut self, to_end: bool, extend: bool, fx: &mut Fx)
        requires
            old(self).wf(),
        ensures
            old(self).requeried(*final(self)),
            final(self).query.text == old(self).query.text,
            final(self).query.caret == (if to_end {
                old(self).query.text@.len() as int
            } else {
                0
            }),
            final(self).query.anchor == old(self).query.anchored(extend),
            *final(fx) == old(fx).following().touched(),
    {
        self.query.jump(to_end, extend);
        fx.follow_caret();
        fx.touch();
    }

    pub fn keymap_search_select_all(&mut self, fx: &mut Fx)
        requires
            old(self).wf(),
        ensures
            old(self).requeried(*final(self)),
            final(self).query.text == old(self).query.text,
            final(self).query.caret == old(self).query.text@.len(),
            final(self).query.anchor == Some(0usize),
            *final(fx) == old(fx).following().touched(),
    {
        self.query.select_all();
        fx.follow_caret();
        fx.touch();
    }

    /// Puts the caret before the character `index`.
    pub fn keymap_search_place(&mut self, index: usize, extend: bool, fx: &mut Fx)
        requires
            old(self).wf(),
        ensures
            old(self).placed(*final(self), index, extend),
            *final(fx) == old(fx).touched(),
    {
        self.query.place(index, extend);
        fx.touch();
    }

    /// `now` is this state with the caret of the search before the character `index`.
    pub open spec fn placed(self, now: KeymapState, index: usize, extend: bool) -> bool {
        &&& self.requeried(now)
        &&& now.query.text == self.query.text
        &&& now.query.caret == (if index <= self.query.text@.len() {
            index as int
        } else {
            self.query.text@.len() as int
        })
        &&& now.query.anchor == self.query.anchored(extend)
    }

    /// Starts a selection drag in the search.
    pub fn begin_keymap_search_drag(
        &mut self,
        index: usize,
        extend: bool,
        page: &mut PageState,
        fx: &mut Fx,
    )
        requires
            old(self).wf(),
        ensures
            old(self).placed(*final(self), index, extend),
            *final(page) == (PageState { text_drag: Some(TextDrag::Keymap), ..*old(page) }),
            *final(fx) == old(fx).touched().following(),
    {
        self.keymap_search_place(index, extend, fx);
        page.text_drag = Some(TextDrag::Keymap);
        fx.follow_caret();
    }

    pub fn keymap_search_selected_text(&self) -> (r: Option<String>)
        requires
            self.wf(),
        ensures
            r is Some <==> self.query.has_selection(),
            r matches Some(s) ==> s@ == self.query.text@.subrange(
                self.query.selection().0,
                self.query.selection().1,
            ),
    {
        self.query.selected_text()
    }

    /// Escape works twice: it clears the search, and then leaves it.
    pub fn keymap_search_escape(&mut self, fx: &mut Fx)
        ensures
            *final(fx) == old(fx).touched(),
            old(self).query.text@.len() == 0 ==> *final(self) == (KeymapState {
                search_focus: false,
                ..*old(self)
            }),
            old(self).query.text@.len() > 0 ==> {
                &&& old(self).requeried(*final(self))
                &&& final(self).query.text@ == Seq::<char>::empty()
                &&& final(self).query.caret == 0
                &&& final(self).query.anchor is None
            },
    {
        if self.query.text.len() == 0 {
            self.search_focus = false;
        } else {
            self.query = TextField::empty();
        }
        fx.touch();
    }

    /// The rows that the search shows, in order; every row where nothing is searched for.
    pub fn keymap_visible_editable(&self, rows: &Vec<KeymapRow>) -> (r: Vec<usize>)
        ensures
            r@ == shown_rows(rows@, self.query.text@, rows@.len() as int),
            trimmed(self.query.text@).len() == 0 ==> r@ == Seq::new(
                rows@.len(),
                |i: int| i as usize,
            ),
    {
        visible_rows(rows, &self.query)
    }

    /// The fixed rows that the search shows.
    pub fn keymap_visible_readonly(&self, rows: &Vec<KeymapRow>) -> (r: Vec<usize>)
        ensures
            r@ == shown_rows(rows@, self.query.text@, rows@.len() as int),
            trimmed(self.query.text@).len() == 0 ==> r@ == Seq::new(
                rows@.len(),
                |i: int| i as usize,
            ),
    {
        visible_rows(rows, &self.query)
    }

    /// What the layout of the page needs to know, for groups of these sizes.
    pub fn keymap_pane_state(
        &self,
        rows: &Vec<KeymapRow>,
        readonly: &Vec<KeymapRow>,
        sizes: &Vec<usize>,
        language: UiLanguage,
    ) -> (pane: KeymapPaneState)
        requires
            group_start(sizes@, sizes@.len() as int) <= usize::MAX,
        ensures
            pane.visible@.len() == sizes@.len(),
            forall|g: int|
                0 <= g < sizes@.len() ==> #[trigger] pane.visible@[g] == shown_between(
                    shown_rows(rows@, self.query.text@, rows@.len() as int),
                    group_start(sizes@, g) as int,
                    group_start(sizes@, g + 1) as int,
                ),
            pane.readonly_visible == shown_rows(
                readonly@,
                self.query.text@,
                readonly@.len() as int,
            ).len(),
            pane.clash == exists|a: int, b: int| #[trigger] clashes(rows@, a, b),
    {
        let shown = self.keymap_visible_editable(rows);
        let mut visible: Vec<usize> = Vec::new();
        let mut start: usize = 0;
        let mut g: usize = 0;
        while g < sizes.len()
            invariant
                g <= sizes@.len(),
                start == group_start(sizes@, g as int),
                group_start(sizes@, sizes@.len() as int) <= usize::MAX,
                shown@ == shown_rows(rows@, self.query.text@, rows@.len() as int),
                visible@.len() == g,
                forall|k: int|
                    0 <= k < g ==> #[trigger] visible@[k] == shown_between(
                        shown@,
                        group_start(sizes@, k) as int,
                        group_start(sizes@, k + 1) as int,
                    ),
            decreases sizes@.len() - g,
        {
            proof {
                lemma_group_start_grows(sizes@, g + 1, sizes@.len() as int);
            }
            let end: usize = start + sizes[g];
            visible.push(count_between(&shown, start, end));
            start = end;
            g += 1;
        }
        let fixed = self.keymap_visible_readonly(readonly);
        let (_, note): (Vec<bool>, Option<String>) = keymap_clash_info(rows, language);
        KeymapPaneState { visible, readonly_visible: fixed.len(), clash: note.is_some() }
    }

    /// The row that a shown place stands for.
    pub fn keymap_slot_to_flat(&self, rows: &Vec<KeymapRow>, slot: usize) -> (r: Option<usize>)
        ensures
            ({
                let shown = shown_rows(rows@, self.query.text@, rows@.len() as int);
                r == (if slot < shown.len() {
                    Some(shown[slot as int])
                } else {
                    None
                })
            }),
    {
        let shown = self.keymap_visible_editable(rows);
        if slot < shown.len() {
            Some(shown[slot])
        } else {
            None
        }
    }

    /// `now` is this state while it waits for the key of `row`.
    pub open spec fn capturing(self, now: KeymapState, row: usize) -> bool {
        &&& now == (KeymapState {
            capture: Some(row),
            preview: now.preview,
            quick_error: None,
            ..self
        })
        &&& now.preview@.len() == 0
    }

    /// Waits for the next key, which then belongs to the row.
    pub fn keymap_begin_capture(&mut self, row: usize, row_count: usize, fx: &mut Fx)
        ensures
            row < row_count ==> old(self).capturing(*final(self), row)
                && *final(fx) == old(fx).marked(),
            row >= row_count ==> *final(self) == *old(self) && *final(fx) == *old(fx),
    {
        if row < row_count {
            self.capture = Some(row);
            self.preview = String::new();
            self.quick_error = None;
            fx.mark();
        }
    }

    /// Waits for the next key for the row at a shown place; the search loses the focus.
    pub fn keymap_begin_capture_slot(&mut self, rows: &Vec<KeymapRow>, slot: usize, fx: &mut Fx)
        ensures
            ({
                let shown = shown_rows(rows@, old(self).query.text@, rows@.len() as int);
                &&& slot < shown.len() ==> (KeymapState {
                    search_focus: false,
                    ..*old(self)
                }).capturing(*final(self), shown[slot as int]) && *final(fx) == old(fx).marked()
                &&& slot >= shown.len() ==> *final(self) == *old(self) && *final(fx) == *old(fx)
            }),
    {
        let count: usize = rows.len();
        proof {
            lemma_shown_rows_inside(rows@, self.query.text@, rows@.len() as int);
        }
        if let Some(flat) = self.keymap_slot_to_flat(rows, slot) {
            self.search_focus = false;
            self.keymap_begin_capture(flat, count, fx);
        }
    }

    /// This state without a key that is waited for.
    pub open spec fn uncaptured(self) -> KeymapState {
        KeymapState { capture: None, ..self }
    }

    /// Waits for no key any more.
    pub fn drop_capture(&mut self)
        ensures
            *final(self) == old(self).uncaptured(),
    {
        self.capture = None;
    }

    pub fn keymap_cancel_capture(&mut self, fx: &mut Fx)
        ensures
            old(self).capture is None ==> *final(self) == *old(self) && *final(fx) == *old(fx),
            old(self).capture is Some ==> {
                &&& *final(self) == (KeymapState {
                    capture: None,
                    preview: final(self).preview,
                    ..*old(self)
                })
                &&& final(self).preview@.len() == 0
                &&& *final(fx) == old(fx).marked()
            },
    {
        if self.capture.is_some() {
            self.capture = None;
            self.preview = String::new();
            fx.mark();
        }
    }

    /// Shows the modifiers that are held down while a key is waited for.
    pub fn keymap_capture_preview(&mut self, prefix: &str, fx: &mut Fx)
        ensures
            ({
                let changes = old(self).capture is Some && old(self).preview@ != prefix@;
                &&& changes ==> *final(self) == (KeymapState {
                    preview: final(self).preview,
                    ..*old(self)
                }) && final(self).preview@ == prefix@ && *final(fx) == old(fx).touched()
                &&& !changes ==> *final(self) == *old(self) && *final(fx) == *old(fx)
            }),
    {
        if self.capture.is_none() {
            return;
        }
        if !same_text(self.preview.as_str(), prefix) {
            self.preview = prefix.to_owned();
            fx.touch();
        }
    }

    /// `now` is this state with `combo` as the key of the quick terminal.
    pub open spec fn quick_set(self, now: KeymapState, combo: Seq<char>) -> bool {
        &&& now == (KeymapState {
            capture: None,
            preview: now.preview,
            quick_hotkey: now.quick_hotkey,
            quick_error: None,
            quick_request: now.quick_request,
            ..self
        })
        &&& now.preview@.len() == 0
        &&& now.quick_hotkey@ == combo
        &&& now.quick_request matches Some(r) && r@ == combo
    }

    fn set_quick(&mut self, combo: String, fx: &mut Fx)
        ensures
            old(self).quick_set(*final(self), combo@),
            *final(fx) == old(fx).saved().marked(),
    {
        self.capture = None;
        self.preview = String::new();
        self.quick_error = None;
        self.quick_request = Some(combo.clone());
        self.quick_hotkey = combo;
        fx.save();
        fx.mark();
    }

    /// `now` is this state with other bindings, which have to be built again.
    pub open spec fn rebound(self, now: KeymapState, binds: Seq<Keybind>) -> bool {
        &&& now == (KeymapState {
            capture: None,
            preview: now.preview,
            keybinds: now.keybinds,
            rebuild: true,
            ..self
        })
        &&& now.preview@.len() == 0
        &&& now.keybinds@ == binds
    }

    fn keymap_commit(&mut self, fx: &mut Fx)
        ensures
            old(self).rebound(*final(self), old(self).keybinds@),
            *final(fx) == old(fx).saved().marked(),
    {
        self.capture = None;
        self.preview = String::new();
        self.rebuild = true;
        fx.save();
        fx.mark();
    }

    /// Gives the captured keys to the row. `action` is the name of its action, `None`
    /// where there is no such row.
    pub fn keymap_assign(
        &mut self,
        row: usize,
        combo: String,
        action: Option<String>,
        fx: &mut Fx,
    )
        ensures
            row == QUICK_TERMINAL_ROW ==> old(self).quick_set(*final(self), combo@) && *final(fx)
                == old(fx).saved().marked(),
            row != QUICK_TERMINAL_ROW && action is None ==> *final(self) == *old(self) && *final(fx)
                == *old(fx),
            row != QUICK_TERMINAL_ROW && action is Some ==> {
                let bind = Keybind { combo, action: action->0 };
                &&& old(self).rebound(
                    *final(self),
                    kept_binds(old(self).keybinds@, combo@, (action->0)@).push(bind),
                )
                &&& *final(fx) == old(fx).saved().marked()
            },
    {
        if row == QUICK_TERMINAL_ROW {
            self.set_quick(combo, fx);
            return;
        }
        if let Some(name) = action {
            retain_binds(&mut self.keybinds, combo.as_str(), name.as_str());
            self.keybinds.push(Keybind { combo, action: name });
            self.keymap_commit(fx);
        }
    }

    /// Takes the keys of the row away. `cleared` are the bindings without its action,
    /// `None` where there is no such row.
    pub fn keymap_clear_custom(&mut self, row: usize, cleared: Option<Vec<Keybind>>, fx: &mut Fx)
        ensures
            row == QUICK_TERMINAL_ROW ==> old(self).quick_set(*final(self), Seq::<char>::empty())
                && *final(fx) == old(fx).saved().marked(),
            row != QUICK_TERMINAL_ROW && cleared is None ==> *final(self) == *old(self)
                && *final(fx) == *old(fx),
            row != QUICK_TERMINAL_ROW && cleared is Some ==> old(self).rebound(
                *final(self),
                (cleared->0)@,
            ) && *final(fx) == old(fx).saved().marked(),
    {
        if row == QUICK_TERMINAL_ROW {
            let none = String::new();
            proof {
                assert(none@ =~= Seq::<char>::empty());
            }
            self.set_quick(none, fx);
            return;
        }
        if let Some(binds) = cleared {
            self.keybinds = binds;
            self.keymap_commit(fx);
        }
    }

    /// Hands the key of the quick terminal out to be registered, once.
    pub fn take_quick_hotkey_request(&mut self) -> (r: Option<String>)
        ensures
            r == old(self).quick_request,
            *final(self) == (KeymapState { quick_request: None, ..*old(self) }),
    {
        self.quick_request.take()
    }

    /// Takes over how registering the key went. A refused key is replaced by the one that
    /// still works, so that the page never shows a key that does nothing.
    pub fn quick_hotkey_registration_done(
        &mut self,
        requested: &str,
        accepted: bool,
        error: Option<String>,
        fallback: &str,
        fx: &mut Fx,
    )
        ensures
            accepted ==> *final(self) == (KeymapState { quick_error: None, ..*old(self) })
                && *final(fx) == *old(fx),
            !accepted ==> {
                let current = old(self).quick_hotkey@ == requested@;
                &&& *final(self) == (KeymapState {
                    quick_error: error,
                    quick_hotkey: final(self).quick_hotkey,
                    ..*old(self)
                })
                &&& final(self).quick_hotkey@ == (if current {
                    fallback@
                } else {
                    old(self).quick_hotkey@
                })
                &&& *final(fx) == (if current {
                    old(fx).saved().touched()
                } else {
                    old(fx).touched()
                })
            },
    {
        if accepted {
            self.quick_error = None;
            return;
        }
        if same_text(self.quick_hotkey.as_str(), requested) {
            self.quick_hotkey = fallback.to_owned();
            fx.save();
        }
        self.quick_error = error;
        fx.touch();
    }
}

proof fn lemma_shown_rows_inside(rows: Seq<KeymapRow>, query: Seq<char>, n: int)
    requires
        0 <= n <= rows.len(),
        rows.len() <= usize::MAX,
    ensures
        forall|i: int|
            0 <= i < shown_rows(rows, query, n).len() ==> #[trigger] shown_rows(rows, query, n)[i]
                < n,
    decreases n,
{
    if n > 0 {
        lemma_shown_rows_inside(rows, query, n - 1);
        let before = shown_rows(rows, query, n - 1);
        let now = shown_rows(rows, query, n);
        assert forall|i: int| 0 <= i < now.len() implies #[trigger] now[i] < n by {
            if i < before.len() {
                assert(now[i] == before[i]);
            }
        }
    }
}

fn retain_binds(binds: &mut Vec<Keybind>, combo: &str, name: &str)
    ensures
        final(binds)@ == kept_binds(old(binds)@, combo@, name@),
{
    let mut kept: Vec<Keybind> = Vec::new();
    let mut i: usize = 0;
    proof {
        assert(binds@.take(0) =~= Seq::<Keybind>::empty());
    }
    while i < binds.len()
        invariant
            i <= binds@.len(),
            kept@ == kept_binds(binds@.take(i as int), combo@, name@),
        decreases binds@.len() - i,
    {
        proof {
            assert(binds@.take(i + 1).drop_last() =~= binds@.take(i as int));
        }
        if !same_text(binds[i].combo.as_str(), combo) && !eq_ignore_ascii_case(
            binds[i].action.as_str(),
            name,
        ) {
            kept.push(
                Keybind { combo: binds[i].combo.clone(), action: binds[i].action.clone() },
            );
        }
        i += 1;
    }
    proof {
        assert(binds@.take(i as int) =~= binds@);
    }
    *binds = kept;
}

/// A list of rows in order, each once, that are exactly those that match.
pub open spec fn lists_matches(shown: Seq<usize>, rows: Seq<KeymapRow>, query: Seq<char>, n: int) -> bool {
    &&& forall|i: int, j: int| 0 <= i < j < shown.len() ==> #[trigger] shown[i] < #[trigger] shown[j]
    &&& forall|i: int| 0 <= i < shown.len() ==> #[trigger] shown[i] < n
    &&& forall|k: usize| k < n ==> (#[trigger] shown.contains(k) <==> matches_query(rows[k as int], query))
}

proof fn lemma_lists_matches(rows: Seq<KeymapRow>, query: Seq<char>, n: int)
    requires
        0 <= n <= rows.len(),
        rows.len() <= usize::MAX,
    ensures
        lists_matches(shown_rows(rows, query, n), rows, query, n),
    decreases n,
{
    let shown = shown_rows(rows, query, n);
    if n > 0 {
        lemma_lists_matches(rows, query, n - 1);
        let before = shown_rows(rows, query, n - 1);
        let last = (n - 1) as usize;
        if matches_query(rows[n - 1], query) {
            assert(shown == before.push(last));
            assert(shown[before.len() as int] == last);
        } else {
            assert(shown == before);
        }
        assert forall|k: usize| k < n implies (#[trigger] shown.contains(k) <==> matches_query(
            rows[k as int],
            query,
        )) by {
            if k < n - 1 {
                assert(before.contains(k) <==> matches_query(rows[k as int], query));
                if before.contains(k) {
                    let i = choose|i: int| 0 <= i < before.len() && before[i] == k;
                    assert(shown[i] == k);
                }
                if shown.contains(k) {
                    let i = choose|i: int| 0 <= i < shown.len() && shown[i] == k;
                    assert(before[i] == k);
                }
            } else if shown.contains(k) && !matches_query(rows[n - 1], query) {
                let i = choose|i: int| 0 <= i < shown.len() && shown[i] == k;
                assert(before[i] < n - 1);
            }
        }
    }
}

/// A search shows exactly the rows that match it, each once and in their order. Nothing
/// typed shows them all.
pub proof fn search_shows_matching_rows(rows: Seq<KeymapRow>, query: Seq<char>)
    requires
        rows.len() <= usize::MAX,
    ensures
        lists_matches(shown_rows(rows, query, rows.len() as int), rows, query, rows.len() as int),
        needle(query).len() == 0 ==> forall|i: int|
            0 <= i < rows.len() ==> matches_query(#[trigger] rows[i], query),
{
    lemma_lists_matches(rows, query, rows.len() as int);
}

/// A text holds a part exactly where something stands before the part and something behind
/// it, both possibly empty.
pub proof fn held_part_has_both_sides(s: Seq<char>, part: Seq<char>, a: Seq<char>, b: Seq<char>)
    ensures
        s == a + part + b ==> contains_text(s, part),
        contains_text(s, part) ==> exists|i: int|
            0 <= i <= s.len() - part.len() && s == #[trigger] s.take(i) + part + s.skip(
                i + part.len(),
            ),
        contains_text(s, Seq::empty()),
        part.len() > s.len() ==> !contains_text(s, part),
{
    if s == a + part + b {
        let k = a.len() as int;
        assert(s.subrange(k, k + part.len()) =~= part);
        assert(occurs_at(s, part, a.len() as int));
    }
    if contains_text(s, part) {
        let i = choose|i: int| occurs_at(s, part, i);
        assert(s =~= s.take(i) + s.subrange(i, i + part.len()) + s.skip(i + part.len()));
    }
    assert(s.subrange(0, 0) =~= Seq::<char>::empty());
    assert(occurs_at(s, Seq::empty(), 0));
}

/// Two rows with the same keys clash, whatever their case; rows without keys never do, and
/// no row clashes with itself.
pub proof fn same_keys_clash(rows: Seq<KeymapRow>, a: int, b: int, x: String, y: String)
    requires
        0 <= a < rows.len(),
        0 <= b < rows.len(),
        rows[a].combo == Some(x),
        rows[b].combo == Some(y),
    ensures
        a != b && x@ == y@ && x@.len() > 0 ==> clashes(rows, a, b),
        a != b && x@.len() > 0 && lowered(x@) == lowered(y@) ==> clashes(rows, a, b),
        clashes(rows, a, b) ==> a != b && x@.len() == y@.len() && x@.len() > 0 && forall|i: int|
            0 <= i < x@.len() ==> (#[trigger] x@[i] == y@[i] || (x@[i] as int) - (y@[i] as int)
                == 32 || (y@[i] as int) - (x@[i] as int) == 32),
        !clashes(rows, a, a),
{
    crate::words::lower_case_changes_capitals_only(x@);
    crate::words::lower_case_changes_capitals_only(y@);
    if clashes(rows, a, b) {
        assert forall|i: int| 0 <= i < x@.len() implies (#[trigger] x@[i] == y@[i] || (x@[i] as int)
            - (y@[i] as int) == 32 || (y@[i] as int) - (x@[i] as int) == 32) by {
            assert(lowered(x@)[i] == lowered(y@)[i]);
        }
    }
}

/// As many rows of a group are shown as there are shown rows in it.
pub proof fn shown_rows_of_a_group_are_counted(shown: Seq<usize>, from: int, to: int)
    ensures
        shown_between(shown, from, to) == shown.filter(|i: usize| from <= i < to).len(),
    decreases shown.len(),
{
    reveal(Seq::filter);
    let pred = |i: usize| from <= i < to;
    if shown.len() > 0 {
        shown_rows_of_a_group_are_counted(shown.drop_last(), from, to);
    }
    assert(shown_between(shown, from, to) == shown.filter(pred).len());
}

/// Groups follow each other without a gap: each begins where the one before it ends.
pub proof fn groups_follow_each_other(sizes: Seq<usize>, g: int)
    requires
        0 <= g < sizes.len(),
    ensures
        group_start(sizes, 0) == 0,
        group_start(sizes, g + 1) == group_start(sizes, g) + sizes[g],
{
}

/// The note on a clash begins with the keys and names both rows, the first one as the one
/// that fires.
pub proof fn clash_note_names_both_rows(
    rows: Seq<KeymapRow>,
    a: int,
    b: int,
    language: UiLanguage,
)
    ensures
        ({
            let note = clash_note(rows, a, b, language);
            let combo = (rows[a].combo->0)@;
            let first = if language is Chinese {
                rows[a].zh@
            } else {
                rows[a].en@
            };
            let second = if language is Chinese {
                rows[b].zh@
            } else {
                rows[b].en@
            };
            &&& note.take(combo.len() as int) == combo
            &&& contains_text(note, first)
            &&& contains_text(note, second)
            &&& language is English ==> contains_text(note, " — only "@ + first)
            &&& language is Chinese ==> contains_text(note, "只有排前面的「"@ + first) || contains_text(
                note,
                "」——只有排前面的「"@ + first,
            )
        }),
{
    let note = clash_note(rows, a, b, language);
    let combo = (rows[a].combo->0)@;
    assert(note.take(combo.len() as int) =~= combo);
    if language is Chinese {
        let first = rows[a].zh@;
        let second = rows[b].zh@;
        let x = combo + " 同时绑定了「"@;
        let y = x + first + "」与「"@;
        let z = y + second;
        assert(note =~= x + first + ("」与「"@ + second + "」——只有排前面的「"@ + first + "」会触发"@));
        assert(note =~= y + second + ("」——只有排前面的「"@ + first + "」会触发"@));
        assert(note =~= z + ("」——只有排前面的「"@ + first) + "」会触发"@);
        held_part_has_both_sides(
            note,
            first,
            x,
            "」与「"@ + second + "」——只有排前面的「"@ + first + "」会触发"@,
        );
        held_part_has_both_sides(note, second, y, "」——只有排前面的「"@ + first + "」会触发"@);
        held_part_has_both_sides(note, "」——只有排前面的「"@ + first, z, "」会触发"@);
    } else {
        let first = rows[a].en@;
        let second = rows[b].en@;
        let x = combo + " is bound to both "@;
        let y = x + first + " and "@;
        let z = y + second;
        assert(note =~= x + first + (" and "@ + second + " — only "@ + first
            + ", listed first, fires"@));
        assert(note =~= y + second + (" — only "@ + first + ", listed first, fires"@));
        assert(note =~= z + (" — only "@ + first) + ", listed first, fires"@);
        held_part_has_both_sides(
            note,
            first,
            x,
            " and "@ + second + " — only "@ + first + ", listed first, fires"@,
        );
        held_part_has_both_sides(note, second, y, " — only "@ + first + ", listed first, fires"@);
        held_part_has_both_sides(note, " — only "@ + first, z, ", listed first, fires"@);
    }
}

/// Keys that were set for the quick terminal are asked to be registered and nothing waits
/// for a key any more; the bindings stay. New bindings are built and leave that key alone.
pub proof fn keys_are_set_apart(
    s: KeymapState,
    now: KeymapState,
    combo: Seq<char>,
    binds: Seq<Keybind>,
    row: usize,
)
    ensures
        s.quick_set(now, combo) ==> now.quick_hotkey@ == combo && now.quick_request is Some && (
        now.quick_request->0)@ == combo && now.capture is None && now.keybinds == s.keybinds
            && now.query == s.query && now.quick_error is None && now.rebuild == s.rebuild,
        s.rebound(now, binds) ==> now.keybinds@ == binds && now.rebuild && now.capture is None
            && now.quick_hotkey == s.quick_hotkey && now.quick_request == s.quick_request
            && now.query == s.query,
        s.capturing(now, row) ==> now.capture == Some(row) && now.preview@.len() == 0
            && now.keybinds == s.keybinds && now.quick_hotkey == s.quick_hotkey
            && now.quick_error is None && now.query == s.query,
        s.uncaptured().capture is None && s.uncaptured().keybinds == s.keybinds
            && s.uncaptured().query == s.query && s.uncaptured().quick_hotkey == s.quick_hotkey,
{
}

/// A key that is assigned is bound to its action and to nothing else, and the action has no
/// other key; every other binding stays in its order. The first row is the quick terminal's
/// and touches none of them.
pub proof fn assigned_key_is_bound(
    s: &mut KeymapState,
    row: usize,
    combo: String,
    action: Option<String>,
    fx: &mut Fx,
)
    requires
        call_ensures(KeymapState::keymap_assign, (s, row, combo, action, fx), ()),
    ensures
        row == 0 ==> final(s).quick_hotkey@ == combo@ && final(s).keybinds == old(s).keybinds
            && final(s).quick_request is Some && (final(s).quick_request->0)@ == combo@
            && final(fx).persist,
        row != 0 && action is None ==> *final(s) == *old(s) && *final(fx) == *old(fx),
        row != 0 && action is Some ==> {
            let others = old(s).keybinds@.filter(
                |b: Keybind| b.combo@ != combo@ && lowered(b.action@) != lowered((action->0)@),
            );
            &&& final(s).keybinds@ == others.push(Keybind { combo, action: action->0 })
            &&& final(s).rebuild && final(s).capture is None
            &&& final(s).quick_hotkey == old(s).quick_hotkey
            &&& final(fx).persist && final(fx).update.dirty
        },
{
    if action is Some {
        let keys = combo@;
        let name = (action->0)@;
        assigning_keeps_other_bindings(old(s).keybinds@, keys, name);
        let p = |b: Keybind| b.combo@ != keys && lowered(b.action@) != lowered(name);
        let q = |b: Keybind| b.combo@ != combo@ && lowered(b.action@) != lowered((action->0)@);
        assert(p =~= q);
        assert(kept_binds(old(s).keybinds@, keys, name) == old(s).keybinds@.filter(q));
    }
}

/// Clearing a key takes the bindings that remain; clearing that of the quick terminal leaves
/// it without one.
pub proof fn cleared_key_is_gone(
    s: &mut KeymapState,
    row: usize,
    cleared: Option<Vec<Keybind>>,
    fx: &mut Fx,
)
    requires
        call_ensures(KeymapState::keymap_clear_custom, (s, row, cleared, fx), ()),
    ensures
        row == 0 ==> final(s).quick_hotkey@.len() == 0 && final(s).keybinds == old(s).keybinds
            && final(s).quick_request is Some,
        row != 0 && cleared is None ==> *final(s) == *old(s),
        row != 0 && cleared is Some ==> final(s).keybinds@ == (cleared->0)@ && final(s).rebuild
            && final(s).quick_hotkey == old(s).quick_hotkey,
{
}

/// A slot of the list is the row that is shown there, and a slot behind the list is none:
/// the row matches the search, and as many matching rows stand before it as slots do.
pub proof fn slot_is_the_row_shown_there(
    s: KeymapState,
    rows: Vec<KeymapRow>,
    slot: usize,
    next: usize,
    r: Option<usize>,
    q: Option<usize>,
)
    requires
        call_ensures(KeymapState::keymap_slot_to_flat, (&s, &rows, slot), r),
        call_ensures(KeymapState::keymap_slot_to_flat, (&s, &rows, next), q),
        rows@.len() <= usize::MAX,
    ensures
        r matches Some(i) ==> i < rows@.len() && matches_query(rows@[i as int], s.query.text@),
        slot < next && r is Some && q is Some ==> r->0 < q->0,
        slot < next && q is Some ==> r is Some,
{
    search_shows_matching_rows(rows@, s.query.text@);
    let shown = shown_rows(rows@, s.query.text@, rows@.len() as int);
    if r is Some {
        assert(shown.contains(shown[slot as int]));
    }
}

/// Rows that clash are marked and no others, and the note is on two of them; without a clash
/// there is none.
pub proof fn clashing_rows_are_marked(
    rows: Vec<KeymapRow>,
    language: UiLanguage,
    r: (Vec<bool>, Option<String>),
    a: int,
    b: int,
)
    requires
        call_ensures(keymap_clash_info, (&rows, language), r),
    ensures
        r.0@.len() == rows@.len(),
        clashes(rows@, a, b) ==> r.0@[a] && r.0@[b] && r.1 is Some,
        0 <= a < rows@.len() && r.0@[a] ==> exists|c: int| #[trigger] clashes(rows@, a, c),
        r.1 is Some ==> exists|x: int, y: int| #[trigger] clashes(rows@, x, y) && x < y,
{
    if clashes(rows@, a, b) {
        clashes_are_mutual(rows@, a, b);
    }
    if r.1 is Some {
        let (x, y) = choose|x: int, y: int| #[trigger]
            first_clash(rows@, x, y) && (r.1->0)@ == clash_note(rows@, x, y, language);
        assert(clashes(rows@, x, y) && x < y);
    }
}

/// A refused hotkey falls back where it is still the one that was asked for, and its error
/// is shown; an accepted one clears the error.
pub proof fn refused_hotkey_falls_back(
    s: &mut KeymapState,
    requested: &str,
    accepted: bool,
    error: Option<String>,
    fallback: &str,
    fx: &mut Fx,
)
    requires
        call_ensures(
            KeymapState::quick_hotkey_registration_done,
            (s, requested, accepted, error, fallback, fx),
            (),
        ),
    ensures
        accepted ==> final(s).quick_error is None && final(s).quick_hotkey == old(s).quick_hotkey,
        !accepted ==> final(s).quick_error == error,
        !accepted && old(s).quick_hotkey@ == requested@ ==> final(s).quick_hotkey@ == fallback@
            && final(fx).persist,
        !accepted && old(s).quick_hotkey@ != requested@ ==> final(s).quick_hotkey@
            == old(s).quick_hotkey@,
        final(s).keybinds == old(s).keybinds,
{
}

/// A request for a hotkey is taken once.
pub proof fn hotkey_request_is_taken_once(
    s: &mut KeymapState,
    again: &mut KeymapState,
    r: Option<String>,
    q: Option<String>,
)
    requires
        call_ensures(KeymapState::take_quick_hotkey_request, (s,), r),
        call_ensures(KeymapState::take_quick_hotkey_request, (again,), q),
        *again == *final(s),
    ensures
        r == old(s).quick_request,
        q is None,
        final(s).keybinds == old(s).keybinds && final(s).quick_hotkey == old(s).quick_hotkey,
{
}

/// Escape first empties the search and then leaves it.
pub proof fn escape_empties_before_it_leaves(
    s: &mut KeymapState,
    again: &mut KeymapState,
    fx: &mut Fx,
    fx2: &mut Fx,
)
    requires
        call_ensures(KeymapState::keymap_search_escape, (s, fx), ()),
        call_ensures(KeymapState::keymap_search_escape, (again, fx2), ()),
        *again == *final(s),
    ensures
        final(s).query.text@.len() == 0,
        old(s).query.text@.len() > 0 ==> final(s).search_focus == old(s).search_focus,
        old(s).query.text@.len() == 0 ==> !final(s).search_focus,
        !final(again).search_focus,
        final(again).keybinds == old(s).keybinds,
{
}

/// Only the row that was asked for waits for a key, and a row that is not there does not.
pub proof fn row_waits_for_its_key(s: &mut KeymapState, row: usize, count: usize, fx: &mut Fx)
    requires
        call_ensures(KeymapState::keymap_begin_capture, (s, row, count, fx), ()),
    ensures
        row < count ==> final(s).capture == Some(row) && final(s).preview@.len() == 0,
        row >= count ==> final(s).capture == old(s).capture,
        final(s).keybinds == old(s).keybinds && final(s).quick_hotkey == old(s).quick_hotkey,
{
}

/// Each group shows as many rows as match the search in it.
pub proof fn groups_show_their_matching_rows(
    s: KeymapState,
    rows: Vec<KeymapRow>,
    readonly: Vec<KeymapRow>,
    sizes: Vec<usize>,
    language: UiLanguage,
    pane: KeymapPaneState,
    g: int,
)
    requires
        call_ensures(KeymapState::keymap_pane_state, (&s, &rows, &readonly, &sizes, language), pane),
        0 <= g < sizes@.len(),
    ensures
        pane.visible@.len() == sizes@.len(),
        pane.visible@[g] == shown_rows(rows@, s.query.text@, rows@.len() as int).filter(
            |i: usize| group_start(sizes@, g) <= i < group_start(sizes@, g) + sizes@[g],
        ).len(),
{
    let shown = shown_rows(rows@, s.query.text@, rows@.len() as int);
    groups_follow_each_other(sizes@, g);
    let from = group_start(sizes@, g) as int;
    let to = group_start(sizes@, g + 1) as int;
    shown_rows_of_a_group_are_counted(shown, from, to);
    let p = |i: usize| from <= i < to;
    let q = |i: usize| group_start(sizes@, g) <= i < group_start(sizes@, g) + sizes@[g];
    assert(p =~= q);
    assert(shown_between(shown, from, to) == shown.filter(p).len());
}

/// Typing searches; a text that is contained is found, and a control character is not typed.
pub proof fn typing_searches_the_keys(
    s: &mut KeymapState,
    ch: char,
    fx: &mut Fx,
    t: &mut KeymapState,
    text: &str,
    fx2: &mut Fx,
    a: &str,
    b: &str,
    r: bool,
)
    requires
        call_ensures(KeymapState::keymap_search_push, (s, ch, fx), ()),
        call_ensures(KeymapState::keymap_search_edit, (t, text, fx2), ()),
        call_ensures(text_contains, (a, b), r),
        old(s).wf(),
        old(t).wf(),
    ensures
        crate::text::is_control_char(ch) ==> *final(s) == *old(s),
        !crate::text::is_control_char(ch) ==> final(s).query.text@ == old(s).query.text@.take(
            old(s).query.selection().0,
        ) + seq![ch] + old(s).query.text@.skip(old(s).query.selection().1),
        printable(text@).len() == 0 ==> *final(t) == *old(t),
        printable(text@).len() > 0 ==> final(t).query.text@ == old(t).query.text@.take(
            old(t).query.selection().0,
        ) + printable(text@) + old(t).query.text@.skip(old(t).query.selection().1),
        final(s).keybinds == old(s).keybinds && final(t).keybinds == old(t).keybinds,
        r <==> exists|i: int|
            0 <= i <= a@.len() - b@.len() && a@ == #[trigger] a@.take(i) + b@ + a@.skip(i + b@.len()),
{
    let q = old(s).query;
    if !crate::text::is_control_char(ch) {
        assert(final(s).query.text@ =~= q.text@.take(q.selection().0) + seq![ch] + q.text@.skip(
            q.selection().1,
        ));
    }
    let p = old(t).query;
    if printable(text@).len() > 0 {
        assert(final(t).query.text@ =~= p.text@.take(p.selection().0) + printable(text@)
            + p.text@.skip(p.selection().1));
    }
    held_part_has_both_sides(a@, b@, Seq::empty(), Seq::empty());
    if exists|i: int|
        0 <= i <= a@.len() - b@.len() && a@ == #[trigger] a@.take(i) + b@ + a@.skip(i + b@.len()) {
        let i = choose|i: int|
            0 <= i <= a@.len() - b@.len() && a@ == #[trigger] a@.take(i) + b@ + a@.skip(
                i + b@.len(),
            );
        held_part_has_both_sides(a@, b@, a@.take(i), a@.skip(i + b@.len()));
    }
}

/// What was pressed so far is shown while a row waits, and nothing is when it is cancelled.
pub proof fn waiting_row_shows_what_is_pressed(
    s: &mut KeymapState,
    prefix: &str,
    fx: &mut Fx,
    t: &mut KeymapState,
    fx2: &mut Fx,
)
    requires
        call_ensures(KeymapState::keymap_capture_preview, (s, prefix, fx), ()),
        call_ensures(KeymapState::keymap_cancel_capture, (t, fx2), ()),
    ensures
        old(s).capture is Some ==> final(s).preview@ == prefix@,
        old(s).capture is None ==> *final(s) == *old(s),
        final(s).capture == old(s).capture && final(s).keybinds == old(s).keybinds,
        final(t).capture is None && final(t).keybinds == old(t).keybinds,
        old(t).capture is Some ==> final(t).preview@.len() == 0,
{
}

} // verus!
