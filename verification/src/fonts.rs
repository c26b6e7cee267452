//! The terminal font: the catalog, its search field and the pick.
use crate::color::Px;
use crate::fields::{printable, printable_chars, spliced, TextField};
use crate::fx::{Fx, Requests};
use crate::hosts::{lists_host, remove_host, without};
use crate::page::{PageState, SettingsDropdown, SettingsUi};
use crate::text::{chars_of, concat2, lowercase, lowercase_of, same_text, text_of, texts};
use crate::update::FontRequest;
use crate::words::{ascii_lower_of, lowered};
use vstd::prelude::*;

verus! {

/// Rows that the font list shows at once.
pub const FONT_POPUP_ROWS: usize = 8;

/// The font in use, the families to pick from and the list that shows them. `proportional`
/// holds the families without a fixed width, in lower case.
#[derive(Debug)]
pub struct FontState {
    pub family: String,
    pub size_bits: u32,
    pub families: Vec<String>,
    pub proportional: Vec<String>,
    pub show_all: bool,
    pub query: TextField,
    pub popup_scroll: usize,
    pub popup_drag: Option<Px>,
    pub notice: Option<String>,
}

/// A family of the catalog, and whether its characters share one width.
#[derive(Debug)]
pub struct CatalogEntry {
    pub name: String,
    pub monospaced: bool,
}

/// The names of a catalog.
pub open spec fn entry_names(catalog: Seq<CatalogEntry>) -> Seq<Seq<char>> {
    Seq::new(catalog.len(), |i: int| catalog[i].name@)
}

/// The names in lower case of those of the first `k` families that have no fixed width.
pub open spec fn proportional_names(catalog: Seq<CatalogEntry>, k: int) -> Seq<Seq<char>>
    decreases k,
{
    if k <= 0 {
        Seq::empty()
    } else if catalog[k - 1].monospaced {
        proportional_names(catalog, k - 1)
    } else {
        proportional_names(catalog, k - 1).push(lowercase(catalog[k - 1].name@))
    }
}

/// How an import of a font went: the file could not be kept, it could not be loaded, or it
/// brought families.
#[derive(Debug)]
pub enum FontImport {
    Refused(String),
    Broken(String),
    Added(Vec<String>),
}

/// What picking a row of the font list means.
#[derive(Clone, Copy, Debug, PartialEq, Eq, Structural)]
pub enum FontPick {
    Family,
    ShowAll,
    Import,
    Nothing,
}

/// The list of families: the required one first, the catalog in its order without it, and
/// the one in use at the end where nothing else lists it.
pub open spec fn catalog_order(
    catalog: Seq<Seq<char>>,
    required: Seq<char>,
    primary: Seq<char>,
) -> Seq<Seq<char>> {
    let rest = seq![required] + without(catalog, required);
    if rest.contains(primary) {
        rest
    } else {
        rest.push(primary)
    }
}

/// The entries of `chain` from `k` on that differ from `family`, each behind a comma.
pub open spec fn fallbacks(chain: Seq<Seq<char>>, family: Seq<char>, k: int) -> Seq<char>
    decreases k,
{
    if k <= 1 {
        Seq::empty()
    } else if chain[k - 1] == family {
        fallbacks(chain, family, k - 1)
    } else {
        fallbacks(chain, family, k - 1) + ", "@ + chain[k - 1]
    }
}

/// The family list once its first entry was replaced: the fallbacks stay behind it.
pub open spec fn replaced_primary(chain: Seq<Seq<char>>, family: Seq<char>) -> Seq<char> {
    family + fallbacks(chain, family, chain.len() as int)
}

/// Whether text `a` comes before or with `b`, character by character.
pub open spec fn text_le(a: Seq<char>, b: Seq<char>) -> bool
    decreases a.len(),
{
    if a.len() == 0 {
        true
    } else if b.len() == 0 {
        false
    } else if a[0] != b[0] {
        a[0] < b[0]
    } else {
        text_le(a.skip(1), b.skip(1))
    }
}

/// Whether family `a` comes before or with `b`, whatever the case of ASCII letters.
pub open spec fn family_le(a: Seq<char>, b: Seq<char>) -> bool {
    text_le(lowered(a), lowered(b))
}

/// `s` with `x` behind every entry that comes before or with it.
pub open spec fn ordered_insert(s: Seq<Seq<char>>, x: Seq<char>) -> Seq<Seq<char>>
    decreases s.len(),
{
    if s.len() == 0 || family_le(s.last(), x) {
        s.push(x)
    } else {
        ordered_insert(s.drop_last(), x).push(s.last())
    }
}

/// `s` ordered by family, entries that compare alike in their order.
pub open spec fn ordered(s: Seq<Seq<char>>) -> Seq<Seq<char>>
    decreases s.len(),
{
    if s.len() == 0 {
        Seq::empty()
    } else {
        ordered_insert(ordered(s.drop_last()), s.last())
    }
}

pub proof fn lemma_text_le_total(a: Seq<char>, b: Seq<char>)
    ensures
        text_le(a, b) || text_le(b, a),
    decreases a.len(),
{
    if a.len() > 0 && b.len() > 0 && a[0] == b[0] {
        lemma_text_le_total(a.skip(1), b.skip(1));
    }
}

pub proof fn lemma_text_le_transitive(a: Seq<char>, b: Seq<char>, c: Seq<char>)
    requires
        text_le(a, b),
        text_le(b, c),
    ensures
        text_le(a, c),
    decreases a.len(),
{
    if a.len() > 0 && a[0] == b[0] && b[0] == c[0] {
        lemma_text_le_transitive(a.skip(1), b.skip(1), c.skip(1));
    }
}

/// Every entry comes before or with the next ones.
pub open spec fn in_order(s: Seq<Seq<char>>) -> bool {
    forall|i: int, j: int| 0 <= i < j < s.len() ==> family_le(#[trigger] s[i], #[trigger] s[j])
}

proof fn lemma_ordered_insert(s: Seq<Seq<char>>, x: Seq<char>)
    requires
        in_order(s),
    ensures
        in_order(ordered_insert(s, x)),
        ordered_insert(s, x).len() == s.len() + 1,
        ordered_insert(s, x).to_multiset() == s.to_multiset().insert(x),
        s.len() > 0 && family_le(x, s.last()) ==> family_le(
            ordered_insert(s, x).last(),
            s.last(),
        ),
        s.len() > 0 ==> family_le(s.last(), ordered_insert(s, x).last()),
        forall|i: int|
            0 <= i < ordered_insert(s, x).len() ==> #[trigger] ordered_insert(s, x)[i] == x
                || s.contains(ordered_insert(s, x)[i]),
    decreases s.len(),
{
    broadcast use vstd::seq_lib::group_to_multiset_ensures;

    if s.len() == 0 {
        assert(s.push(x).to_multiset() =~= s.to_multiset().insert(x));
    } else if family_le(s.last(), x) {
        assert(s.push(x).to_multiset() =~= s.to_multiset().insert(x));
        assert forall|i: int, j: int| 0 <= i < j < s.push(x).len() implies family_le(
            #[trigger] s.push(x)[i],
            #[trigger] s.push(x)[j],
        ) by {
            if j == s.len() && i < s.len() - 1 {
                assert(family_le(s[i], s[s.len() - 1]));
                lemma_text_le_transitive(lowered(s[i]), lowered(s.last()), lowered(x));
            }
        }
        assert forall|i: int| 0 <= i < s.push(x).len() implies #[trigger] s.push(x)[i] == x
            || s.contains(s.push(x)[i]) by {
            if i < s.len() {
                assert(s[i] == s.push(x)[i]);
            }
        }
        lemma_text_le_total(lowered(s.last()), lowered(s.last()));
    } else {
        let front = s.drop_last();
        lemma_text_le_total(lowered(s.last()), lowered(x));
        lemma_text_le_total(lowered(s.last()), lowered(s.last()));
        assert(in_order(front)) by {
            assert forall|i: int, j: int| 0 <= i < j < front.len() implies family_le(
                #[trigger] front[i],
                #[trigger] front[j],
            ) by {
                assert(family_le(s[i], s[j]));
            }
        }
        lemma_ordered_insert(front, x);
        let r = ordered_insert(front, x);
        let all = r.push(s.last());
        assert(front.push(s.last()) =~= s);
        assert(all.to_multiset() =~= s.to_multiset().insert(x));
        assert forall|i: int| 0 <= i < all.len() implies #[trigger] all[i] == x || s.contains(
            all[i],
        ) by {
            if i < r.len() {
                assert(r[i] == all[i]);
                if r[i] != x {
                    let k = choose|k: int| 0 <= k < front.len() && front[k] == r[i];
                    assert(s[k] == r[i]);
                }
            } else {
                assert(s[s.len() - 1] == all[i]);
            }
        }
        assert forall|i: int, j: int| 0 <= i < j < all.len() implies family_le(
            #[trigger] all[i],
            #[trigger] all[j],
        ) by {
            if j == r.len() {
                assert(r[i] == x || front.contains(r[i]));
                if r[i] != x {
                    let k = choose|k: int| 0 <= k < front.len() && front[k] == r[i];
                    assert(family_le(s[k], s[s.len() - 1]));
                }
            } else {
                assert(family_le(r[i], r[j]));
            }
        }
    }
}

/// Ordering families gives the same entries, in order.
pub proof fn ordered_sorts(s: Seq<Seq<char>>)
    ensures
        in_order(ordered(s)),
        ordered(s).len() == s.len(),
        ordered(s).to_multiset() == s.to_multiset(),
    decreases s.len(),
{
    broadcast use vstd::seq_lib::group_to_multiset_ensures;

    if s.len() > 0 {
        ordered_sorts(s.drop_last());
        lemma_ordered_insert(ordered(s.drop_last()), s.last());
        assert(s.drop_last().push(s.last()) =~= s);
    } else {
        assert(s =~= Seq::empty());
    }
}

fn family_not_after(a: &str, b: &str) -> (r: bool)
    ensures
        r == family_le(a@, b@),
{
    let x = chars_of(a);
    let y = chars_of(b);
    let mut i: usize = 0;
    proof {
        assert(lowered(a@).skip(0) =~= lowered(a@));
        assert(lowered(b@).skip(0) =~= lowered(b@));
    }
    while i < x.len()
        invariant
            i <= x@.len(),
            i <= y@.len(),
            x@ == a@,
            y@ == b@,
            family_le(a@, b@) == text_le(lowered(a@).skip(i as int), lowered(b@).skip(i as int)),
        decreases x@.len() - i,
    {
        if i >= y.len() {
            return false;
        }
        let c: char = ascii_lower_of(x[i]);
        let d: char = ascii_lower_of(y[i]);
        proof {
            assert(lowered(a@).skip(i as int)[0] == c);
            assert(lowered(b@).skip(i as int)[0] == d);
            assert(lowered(a@).skip(i as int).skip(1) =~= lowered(a@).skip(i + 1));
            assert(lowered(b@).skip(i as int).skip(1) =~= lowered(b@).skip(i + 1));
        }
        if c != d {
            return c < d;
        }
        i += 1;
    }
    true
}

/// Orders the entries of `list` from `from` on by family.
fn order_families(list: &mut Vec<String>, from: usize)
    requires
        from <= old(list)@.len(),
    ensures
        texts(final(list)@) == texts(old(list)@).take(from as int) + ordered(
            texts(old(list)@).skip(from as int),
        ),
{
    let mut tail = list.split_off(from);
    let ghost rest = texts(tail@);
    let ghost kept = texts(list@);
    proof {
        assert(kept =~= texts(old(list)@).take(from as int));
        assert(rest =~= texts(old(list)@).skip(from as int));
    }
    let mut done: Vec<String> = Vec::new();
    let ghost mut n: int = 0;
    proof {
        assert(texts(done@) =~= ordered(rest.take(0)));
        assert(texts(tail@) =~= rest.skip(0));
    }
    while tail.len() > 0
        invariant
            0 <= n <= rest.len(),
            texts(tail@) == rest.skip(n),
            texts(done@) == ordered(rest.take(n)),
        decreases tail@.len(),
    {
        let ghost before = tail@;
        let x = tail.remove(0);
        let ghost name = x@;
        proof {
            assert(texts(before).len() == before.len());
            assert(texts(before)[0] == name);
            assert(rest.skip(n)[0] == rest[n]);
            assert forall|i: int| 0 <= i < tail@.len() implies texts(tail@)[i] == rest.skip(
                n + 1,
            )[i] by {
                assert(texts(before)[i + 1] == before[i + 1]@);
                assert(rest.skip(n)[i + 1] == rest[n + 1 + i]);
            }
            assert(texts(tail@) =~= rest.skip(n + 1));
            assert(rest.take(n + 1).drop_last() =~= rest.take(n));
        }
        insert_ordered(&mut done, x);
        proof {
            n = n + 1;
        }
    }
    proof {
        assert(n == rest.len());
        assert(rest.take(n) =~= rest);
    }
    let ghost sorted = texts(done@);
    list.append(&mut done);
    proof {
        assert(texts(list@) =~= kept + sorted);
    }
}

fn insert_ordered(list: &mut Vec<String>, x: String)
    ensures
        texts(final(list)@) == ordered_insert(texts(old(list)@), x@),
{
    let mut at: usize = list.len();
    let ghost all = texts(list@);
    proof {
        assert(all.take(at as int) =~= all);
        assert(all.skip(at as int) =~= Seq::<Seq<char>>::empty());
        assert(ordered_insert(all, x@) + Seq::<Seq<char>>::empty() =~= ordered_insert(all, x@));
    }
    while at > 0 && !family_not_after(list[at - 1].as_str(), x.as_str())
        invariant
            at <= list@.len(),
            all == texts(list@),
            ordered_insert(all, x@) == ordered_insert(all.take(at as int), x@) + all.skip(
                at as int,
            ),
        decreases at,
    {
        proof {
            assert(all[at - 1] == list@[at - 1]@);
            let t = all.take(at as int);
            assert(t.drop_last() =~= all.take(at - 1));
            let r = ordered_insert(all.take(at - 1), x@);
            assert(r.push(t.last()) + all.skip(at as int) =~= r + all.skip(at - 1));
        }
        at -= 1;
    }
    proof {
        if at > 0 {
            assert(all[at - 1] == list@[at - 1]@);
            assert(all.take(at as int).last() == all[at - 1]);
        }
        assert(ordered_insert(all.take(at as int), x@) == all.take(at as int).push(x@));
        assert(all.take(at as int).push(x@) + all.skip(at as int) =~= all.insert(at as int, x@));
    }
    let ghost name = x@;
    list.insert(at, x);
    proof {
        assert(texts(list@) =~= all.insert(at as int, name));
    }
}

/// The families once imported ones were added: those that were not known go to the end.
pub open spec fn with_imported(known: Seq<Seq<char>>, imported: Seq<Seq<char>>, k: int) -> Seq<
    Seq<char>,
>
    decreases k,
{
    if k <= 0 {
        known
    } else {
        let before = with_imported(known, imported, k - 1);
        if before.contains(imported[k - 1]) {
            before
        } else {
            before.push(imported[k - 1])
        }
    }
}

impl FontState {
    /// The font in use.
    pub open spec fn in_use(self) -> FontRequest {
        FontRequest { family: self.family, size_bits: self.size_bits }
    }

    /// The list opens at its top, without an old notice.
    pub(crate) fn reopen(&mut self)
        ensures
            *final(self) == (FontState { notice: None, popup_scroll: 0, ..*old(self) }),
    {
        self.notice = None;
        self.popup_scroll = 0;
    }

    /// The list closes, and a search ends with it. The result tells whether there was one.
    pub(crate) fn close(&mut self) -> (searching: bool)
        ensures
            searching == (old(self).query.text@.len() > 0),
            *final(self) == (FontState {
                query: final(self).query,
                popup_scroll: 0,
                ..*old(self)
            }),
            searching ==> final(self).query.text@.len() == 0 && final(self).query.caret == 0
                && final(self).query.anchor is None,
            !searching ==> final(self).query == old(self).query,
    {
        let searching: bool = self.query.text.len() > 0;
        if searching {
            self.query = TextField::empty();
        }
        self.popup_scroll = 0;
        searching
    }

    /// The font in use as a request.
    pub fn effective_font(&self) -> (f: FontRequest)
        ensures
            f == self.in_use(),
    {
        FontRequest { family: self.family.clone(), size_bits: self.size_bits }
    }

    /// Takes over the size of the font at another scale of the window, where `changed`
    /// tells that it is another one.
    pub fn apply_scale_factor_change(&mut self, changed: bool, size_bits: u32, fx: &mut Fx)
        ensures
            changed ==> *final(self) == (FontState { size_bits, ..*old(self) }) && *final(fx)
                == old(fx).font_queued(final(self).in_use()),
            !changed ==> *final(self) == *old(self) && *final(fx) == *old(fx),
    {
        if changed {
            self.size_bits = size_bits;
            fx.queue_font(self.effective_font());
        }
    }

    /// Families, and two rows behind them: one switches the filter, one imports.
    pub fn font_picker_count(&self) -> (n: usize)
        requires
            self.families@.len() <= usize::MAX - 2,
        ensures
            n == self.families@.len() + 2,
    {
        self.families.len() + 2
    }

    /// What the list is searched for.
    pub fn font_query(&self) -> (s: String)
        ensures
            s@ == self.query.text@,
    {
        text_of(&self.query.text)
    }

    /// The first row of the list that is shown.
    pub fn font_popup_scroll(&self) -> (n: usize)
        ensures
            n == self.popup_scroll,
    {
        self.popup_scroll
    }

    pub fn font_show_all(&self) -> (r: bool)
        ensures
            r == self.show_all,
    {
        self.show_all
    }

    /// Takes over the catalog of the installed families. The required family comes
    /// first, and the one in use is never missing. The list goes back to its top.
    pub fn rebuild_font_catalog(
        &mut self,
        catalog: &Vec<CatalogEntry>,
        required: &str,
        primary: &str,
    )
        requires
            catalog@.len() < usize::MAX - 1,
        ensures
            *final(self) == (FontState {
                families: final(self).families,
                proportional: final(self).proportional,
                popup_scroll: 0,
                ..*old(self)
            }),
            texts(final(self).families@) == catalog_order(
                entry_names(catalog@),
                required@,
                primary@,
            ),
            texts(final(self).proportional@) == proportional_names(
                catalog@,
                catalog@.len() as int,
            ),
    {
        let mut names: Vec<String> = Vec::new();
        let mut wide: Vec<String> = Vec::new();
        let mut i: usize = 0;
        while i < catalog.len()
            invariant
                i <= catalog@.len(),
                names@.len() == i,
                forall|k: int|
                    0 <= k < i ==> (#[trigger] names@[k])@ == catalog@[k].name@,
                texts(wide@) == proportional_names(catalog@, i as int),
            decreases catalog@.len() - i,
        {
            names.push(catalog[i].name.clone());
            if !catalog[i].monospaced {
                let ghost before = texts(wide@);
                wide.push(lowercase_of(catalog[i].name.as_str()));
                proof {
                    assert(texts(wide@) =~= before.push(lowercase(catalog@[i as int].name@)));
                }
            }
            i += 1;
        }
        proof {
            assert(texts(names@) =~= entry_names(catalog@));
        }
        self.proportional = wide;
        self.list_families(names, required, primary);
    }

    /// Lists these families.
    pub(crate) fn list_families(&mut self, catalog: Vec<String>, required: &str, primary: &str)
        requires
            catalog@.len() < usize::MAX - 1,
        ensures
            *final(self) == (FontState {
                families: final(self).families,
                popup_scroll: 0,
                ..*old(self)
            }),
            texts(final(self).families@) == catalog_order(texts(catalog@), required@, primary@),
    {
        let mut families = catalog;
        remove_host(&mut families, required);
        let ghost rest = texts(families@);
        families.insert(0, required.to_owned());
        proof {
            assert(texts(families@) =~= seq![required@] + rest);
        }
        if !lists_host(&families, primary) {
            let ghost before = texts(families@);
            families.push(primary.to_owned());
            proof {
                assert(texts(families@) =~= before.push(primary@));
            }
        }
        self.families = families;
        self.popup_scroll = 0;
    }

    /// What a changed query asks for: the catalog again, and the input method at the
    /// caret.
    pub open spec fn queried_fx(fx: Fx) -> Fx {
        fx.asking(Requests { rebuild_fonts: true, refresh_ime: true, ..fx.requests }).touched()
    }

    /// What a moved caret asks for.
    pub open spec fn moved_fx(fx: Fx) -> Fx {
        fx.asking(Requests { refresh_ime: true, ..fx.requests }).touched()
    }

    fn ask_catalog(fx: &mut Fx)
        ensures
            *final(fx) == FontState::queried_fx(*old(fx)),
    {
        let requests = Requests { rebuild_fonts: true, refresh_ime: true, ..fx.requests };
        fx.ask(requests);
        fx.touch();
    }

    fn ask_ime(fx: &mut Fx)
        ensures
            *final(fx) == FontState::moved_fx(*old(fx)),
    {
        let requests = Requests { refresh_ime: true, ..fx.requests };
        fx.ask(requests);
        fx.touch();
    }

    /// Only the query differs.
    pub open spec fn requeried(self, now: FontState) -> bool {
        now == (FontState { query: now.query, ..self })
    }

    /// Types into the search field, or erases where `insert` is `None`. The catalog
    /// follows the typing; control characters alone change nothing.
    pub fn font_query_edit(&mut self, insert: Option<&str>, fx: &mut Fx)
        requires
            old(self).query.wf(),
            insert matches Some(s) ==> old(self).query.text@.len() + s@.len() <= usize::MAX,
        ensures
            final(self).query.wf(),
            old(self).requeried(*final(self)),
            match insert {
                Some(s) => if printable(s@).len() == 0 {
                    final(self).query == old(self).query && *final(fx) == *old(fx)
                } else {
                    &&& final(self).query.text@ == spliced(
                        old(self).query.text@,
                        old(self).query.selection().0,
                        old(self).query.selection().1,
                        printable(s@),
                    )
                    &&& final(self).query.caret == old(self).query.selection().0 + printable(
                        s@,
                    ).len()
                    &&& final(self).query.anchor is None
                    &&& *final(fx) == FontState::queried_fx(*old(fx))
                },
                None => {
                    &&& (final(self).query.text@, final(self).query.caret as int) == old(
                        self,
                    ).query.erased_back()
                    &&& final(self).query.anchor is None
                    &&& *final(fx) == FontState::queried_fx(*old(fx))
                },
            },
    {
        match insert {
            Some(s) => {
                let clean = printable_chars(s);
                proof {
                    crate::rename::lemma_printable_len(s@);
                }
                if clean.len() == 0 {
                    return;
                }
                self.query.insert(&clean);
            },
            None => self.query.backspace(),
        }
        FontState::ask_catalog(fx);
    }

    pub fn font_query_delete_forward(&mut self, fx: &mut Fx)
        requires
            old(self).query.wf(),
        ensures
            final(self).query.wf(),
            old(self).requeried(*final(self)),
            final(self).query.text@ == old(self).query.erased_forward(),
            final(self).query.caret == old(self).query.selection().0,
            final(self).query.anchor is None,
            *final(fx) == FontState::queried_fx(*old(fx)),
    {
        self.query.delete_forward();
        FontState::ask_catalog(fx);
    }

    pub fn font_query_move(&mut self, forward: bool, extend: bool, fx: &mut Fx)
        requires
            old(self).query.wf(),
        ensures
            final(self).query.wf(),
            old(self).requeried(*final(self)),
            final(self).query.text == old(self).query.text,
            final(self).query.caret == old(self).query.moved(
                if forward {
                    1int
                } else {
                    -1int
                },
                extend,
            ),
            final(self).query.anchor == old(self).query.anchored(extend),
            *final(fx) == FontState::moved_fx(*old(fx)),
    {
        let delta: i32 = if forward {
            1
        } else {
            -1
        };
        self.query.move_by(delta, extend);
        FontState::ask_ime(fx);
    }

    pub fn font_query_jump(&mut self, to_end: bool, extend: bool, fx: &mut Fx)
        requires
            old(self).query.wf(),
        ensures
            final(self).query.wf(),
            old(self).requeried(*final(self)),
            final(self).query.text == old(self).query.text,
            final(self).query.caret == (if to_end {
                old(self).query.text@.len() as int
            } else {
                0
            }),
            final(self).query.anchor == old(self).query.anchored(extend),
            *final(fx) == FontState::moved_fx(*old(fx)),
    {
        self.query.jump(to_end, extend);
        FontState::ask_ime(fx);
    }

    pub fn font_query_select_all(&mut self, fx: &mut Fx)
        ensures
            final(self).query.wf(),
            old(self).requeried(*final(self)),
            final(self).query.text == old(self).query.text,
            final(self).query.caret == old(self).query.text@.len(),
            final(self).query.anchor == Some(0usize),
            *final(fx) == FontState::moved_fx(*old(fx)),
    {
        self.query.select_all();
        FontState::ask_ime(fx);
    }

    pub fn font_query_selected_text(&self) -> (r: Option<String>)
        requires
            self.query.wf(),
        ensures
            r is Some <==> self.query.has_selection(),
            r matches Some(s) ==> s@ == self.query.text@.subrange(
                self.query.selection().0,
                self.query.selection().1,
            ),
    {
        self.query.selected_text()
    }

    /// `now` is this state with the caret of the search before the character `index`.
    pub open spec fn placed(self, now: FontState, index: usize, extend: bool) -> bool {
        &&& self.requeried(now)
        &&& now.query.text == self.query.text
        &&& now.query.caret == (if index <= self.query.text@.len() {
            index as int
        } else {
            self.query.text@.len() as int
        })
        &&& now.query.anchor == self.query.anchored(extend)
    }

    /// Puts the caret before the character that the pointer is at.
    pub fn font_query_place(&mut self, index: usize, extend: bool, fx: &mut Fx)
        requires
            old(self).query.wf(),
        ensures
            final(self).query.wf(),
            old(self).placed(*final(self), index, extend),
            *final(fx) == old(fx).touched(),
    {
        self.query.place(index, extend);
        fx.touch();
    }

    /// Where a scroll by `delta` rows goes in a list of `total` rows.
    pub open spec fn scrolled(self, delta: i32, total: usize) -> int {
        let max = if total > FONT_POPUP_ROWS {
            total - FONT_POPUP_ROWS
        } else {
            0
        };
        let to = self.popup_scroll + delta;
        if to < 0 {
            0
        } else if to > max {
            max
        } else {
            to
        }
    }

    /// Scrolls the list; the last page is the end. The result tells whether it moved.
    pub fn font_popup_scroll_by(&mut self, delta: i32, total: usize, fx: &mut Fx) -> (r: bool)
        requires
            old(self).popup_scroll <= i32::MAX,
            total <= i32::MAX,
        ensures
            r == (old(self).scrolled(delta, total) != old(self).popup_scroll),
            *final(self) == (FontState {
                popup_scroll: old(self).scrolled(delta, total) as usize,
                ..*old(self)
            }),
            *final(fx) == (if r {
                old(fx).touched()
            } else {
                *old(fx)
            }),
    {
        let max: i64 = total.saturating_sub(FONT_POPUP_ROWS) as i64;
        let to: i64 = self.popup_scroll as i64 + delta as i64;
        let next: usize = if to < 0 {
            0
        } else if to > max {
            max as usize
        } else {
            to as usize
        };
        if next == self.popup_scroll {
            return false;
        }
        self.popup_scroll = next;
        fx.touch();
        true
    }

    /// A press on the scroll bar: `hit` holds where the thumb was grabbed and the row
    /// that it stands for, `None` for a press elsewhere.
    pub fn font_popup_scrollbar_press(&mut self, hit: Option<(Px, usize)>, fx: &mut Fx) -> (r: bool)
        ensures
            r == hit is Some,
            !r ==> *final(self) == *old(self) && *final(fx) == *old(fx),
            hit matches Some((grab, target)) ==> *final(self) == (FontState {
                popup_drag: Some(grab),
                popup_scroll: target,
                ..*old(self)
            }) && *final(fx) == old(fx).touched(),
    {
        match hit {
            Some((grab, target)) => {
                self.popup_drag = Some(grab);
                self.popup_scroll = target;
                fx.touch();
                true
            },
            None => false,
        }
    }

    /// Follows the grabbed thumb to the row `target`; `None` where there is no bar.
    pub fn font_popup_scrollbar_drag_to(&mut self, target: Option<usize>, fx: &mut Fx) -> (r: bool)
        ensures
            r == (old(self).popup_drag is Some && target is Some),
            *final(self) == (FontState {
                popup_scroll: if r {
                    target->0
                } else {
                    old(self).popup_scroll
                },
                ..*old(self)
            }),
            *final(fx) == (if r && target->0 != old(self).popup_scroll {
                old(fx).touched()
            } else {
                *old(fx)
            }),
    {
        if self.popup_drag.is_none() {
            return false;
        }
        match target {
            Some(t) => {
                if t != self.popup_scroll {
                    self.popup_scroll = t;
                    fx.touch();
                }
                true
            },
            None => false,
        }
    }

    pub fn font_popup_scrollbar_dragging(&self) -> (r: bool)
        ensures
            r == self.popup_drag is Some,
    {
        self.popup_drag.is_some()
    }

    pub fn end_font_popup_scrollbar_drag(&mut self) -> (r: bool)
        ensures
            r == old(self).popup_drag is Some,
            *final(self) == (FontState { popup_drag: None, ..*old(self) }),
    {
        let r: bool = self.popup_drag.is_some();
        self.popup_drag = None;
        r
    }

    /// Switches the filter of the list, which asks for the catalog again.
    pub fn toggle_font_show_all(&mut self, fx: &mut Fx)
        ensures
            *final(self) == (FontState {
                show_all: !old(self).show_all,
                popup_scroll: 0,
                ..*old(self)
            }),
            *final(fx) == old(fx).asking(
                Requests { rebuild_fonts: true, ..old(fx).requests },
            ).touched(),
    {
        self.show_all = !self.show_all;
        self.popup_scroll = 0;
        let requests = Requests { rebuild_fonts: true, ..fx.requests };
        fx.ask(requests);
        fx.touch();
    }

    /// Takes a family where it can be loaded: it replaces the first of the list in use
    /// and keeps the fallbacks. One that cannot be loaded changes nothing but the
    /// notice. `chain` holds the families in use.
    pub fn apply_font_family(
        &mut self,
        family: &str,
        loads: bool,
        chain: &Vec<String>,
        fx: &mut Fx,
    )
        ensures
            !loads ==> {
                &&& *final(self) == (FontState { notice: final(self).notice, ..*old(self) })
                &&& final(self).notice matches Some(n) && n@ == "字体无法加载："@ + family@
                &&& *final(fx) == old(fx).touched()
            },
            loads ==> {
                &&& *final(self) == (FontState {
                    family: final(self).family,
                    notice: None,
                    ..*old(self)
                })
                &&& final(self).family@ == replaced_primary(texts(chain@), family@)
                &&& *final(fx) == old(fx).font_queued(final(self).in_use()).saved().redrawn()
            },
    {
        if !loads {
            self.notice = Some(concat2("字体无法加载：", family));
            fx.touch();
            return;
        }
        let mut list: String = family.to_owned();
        let mut k: usize = 1;
        proof {
            assert(family@ + Seq::<char>::empty() =~= family@);
        }
        while k < chain.len()
            invariant
                1 <= k,
                k <= chain@.len() || k == 1,
                list@ == family@ + fallbacks(texts(chain@), family@, k as int),
            decreases chain@.len() - k,
        {
            proof {
                assert(texts(chain@)[k as int] == chain@[k as int]@);
            }
            if !same_text(chain[k].as_str(), family) {
                let ghost before = list@;
                list.append(", ");
                list.append(chain[k].as_str());
                proof {
                    assert(list@ =~= family@ + fallbacks(texts(chain@), family@, k + 1));
                }
            }
            k += 1;
        }
        proof {
            assert(texts(chain@).len() == chain@.len());
            if chain@.len() == 0 {
                assert(fallbacks(texts(chain@), family@, 0) =~= fallbacks(
                    texts(chain@),
                    family@,
                    1,
                ));
            }
        }
        self.family = list;
        self.notice = None;
        let request = self.effective_font();
        fx.queue_font(request);
        fx.save();
        fx.ask_redraw();
    }

    /// Adds imported families behind the known ones and orders all but the first.
    pub fn add_imported_families(&mut self, imported: &Vec<String>)
        requires
            old(self).families@.len() > 0 || imported@.len() > 0,
            old(self).families@.len() + imported@.len() <= usize::MAX,
        ensures
            ({
                let all = with_imported(
                    texts(old(self).families@),
                    texts(imported@),
                    imported@.len() as int,
                );
                &&& *final(self) == (FontState { families: final(self).families, ..*old(self) })
                &&& texts(final(self).families@) == all.take(1) + ordered(all.skip(1))
            }),
    {
        let ghost known = texts(self.families@);
        let mut k: usize = 0;
        while k < imported.len()
            invariant
                k <= imported@.len(),
                known.len() > 0 || imported@.len() > 0,
                k > 0 ==> self.families@.len() > 0,
                *self == (FontState { families: self.families, ..*old(self) }),
                texts(self.families@) == with_imported(known, texts(imported@), k as int),
                known.len() <= self.families@.len() <= known.len() + k,
                known.len() + imported@.len() <= usize::MAX,
            decreases imported@.len() - k,
        {
            proof {
                assert(texts(imported@)[k as int] == imported@[k as int]@);
            }
            if !lists_host(&self.families, imported[k].as_str()) {
                let ghost before = texts(self.families@);
                self.families.push(imported[k].clone());
                proof {
                    assert(texts(self.families@) =~= before.push(imported@[k as int]@));
                }
            }
            k += 1;
        }
        order_families(&mut self.families, 1);
    }

    /// What the row `index` of the list stands for.
    pub open spec fn pick(self, index: usize) -> FontPick {
        let n = self.families@.len();
        if index < n {
            FontPick::Family
        } else if index == n {
            FontPick::ShowAll
        } else if index == n + 1 {
            FontPick::Import
        } else {
            FontPick::Nothing
        }
    }
}

impl SettingsUi {
    /// Opens or closes the font list. Opening it needs the catalog.
    pub fn toggle_font_picker(&mut self, fx: &mut Fx)
        ensures
            old(self).dropdown_toggled(*final(self), SettingsDropdown::Font),
            *final(fx) == (if old(self).page.dropdown != Some(SettingsDropdown::Font) {
                old(fx).asking(Requests { rebuild_fonts: true, ..old(fx).requests }).marked()
            } else {
                old(fx).marked()
            }),
    {
        let open: bool = match self.page.dropdown {
            Some(SettingsDropdown::Font) => true,
            _ => false,
        };
        if !open {
            let requests = Requests { rebuild_fonts: true, ..fx.requests };
            fx.ask(requests);
        }
        self.toggle_settings_dropdown(SettingsDropdown::Font, fx);
    }

    /// Picks a row of the font list. A family is taken over and the list closes; the row
    /// behind the families switches the filter and leaves the list open; the next one
    /// asks for an import.
    pub fn set_terminal_font_by_index(
        &mut self,
        index: usize,
        loads: bool,
        chain: &Vec<String>,
        fx: &mut Fx,
    ) -> (pick: FontPick)
        requires
            old(self).font.families@.len() < usize::MAX,
        ensures
            pick == old(self).font.pick(index),
            pick is Family ==> {
                let family = old(self).font.families@[index as int]@;
                &&& *final(self) == (SettingsUi {
                    page: PageState { dropdown: None, ..old(self).page },
                    font: final(self).font,
                    ..*old(self)
                })
                &&& !loads ==> {
                    &&& final(self).font == (FontState {
                        notice: final(self).font.notice,
                        ..old(self).font
                    })
                    &&& final(self).font.notice matches Some(n) && n@ == "字体无法加载："@ + family
                    &&& *final(fx) == old(fx).touched()
                }
                &&& loads ==> {
                    &&& final(self).font == (FontState {
                        family: final(self).font.family,
                        notice: None,
                        ..old(self).font
                    })
                    &&& final(self).font.family@ == replaced_primary(texts(chain@), family)
                    &&& *final(fx) == old(fx).font_queued(
                        final(self).font.in_use(),
                    ).saved().redrawn()
                }
            },
            pick is ShowAll ==> *final(self) == (SettingsUi {
                font: FontState {
                    show_all: !old(self).font.show_all,
                    popup_scroll: 0,
                    ..old(self).font
                },
                ..*old(self)
            }) && *final(fx) == old(fx).asking(
                Requests { rebuild_fonts: true, ..old(fx).requests },
            ).touched(),
            pick is Import || pick is Nothing ==> *final(self) == *old(self) && *final(fx)
                == *old(fx),
    {
        let n: usize = self.font.families.len();
        if index < n {
            let family = self.font.families[index].clone();
            self.font.apply_font_family(family.as_str(), loads, chain, fx);
            self.page.dropdown = None;
            return FontPick::Family;
        }
        if index == n {
            self.font.toggle_font_show_all(fx);
            return FontPick::ShowAll;
        }
        if index == n + 1 {
            FontPick::Import
        } else {
            FontPick::Nothing
        }
    }
}

impl SettingsUi {
    /// `now` is this page once an import went as `import` says: the list closes; the
    /// families that it brought are listed, and the first of them is taken.
    pub open spec fn imported(
        self,
        now: SettingsUi,
        import: FontImport,
        loads: bool,
        chain: Seq<Seq<char>>,
    ) -> bool {
        &&& now == (SettingsUi {
            page: PageState { dropdown: None, ..self.page },
            font: now.font,
            ..self
        })
        &&& match import {
            FontImport::Refused(e) => now.font == (FontState { notice: Some(e), ..self.font }),
            FontImport::Broken(e) => {
                &&& now.font == (FontState { notice: now.font.notice, ..self.font })
                &&& now.font.notice matches Some(n) && n@ == "字体无法加载："@ + e@
            },
            FontImport::Added(families) => {
                let all = with_imported(
                    texts(self.font.families@),
                    texts(families@),
                    families@.len() as int,
                );
                &&& texts(now.font.families@) == all.take(1) + ordered(all.skip(1))
                &&& now.font == (FontState {
                    families: now.font.families,
                    family: now.font.family,
                    notice: now.font.notice,
                    ..self.font
                })
                &&& families@.len() == 0 ==> now.font.family == self.font.family
                    && now.font.notice == self.font.notice
                &&& families@.len() > 0 && loads ==> now.font.notice is None
                    && now.font.family@ == replaced_primary(chain, families@[0]@)
                &&& families@.len() > 0 && !loads ==> {
                    &&& now.font.family == self.font.family
                    &&& now.font.notice matches Some(n) && n@ == "字体无法加载："@ + families@[0]@
                }
            },
        }
    }

    /// Takes over how the import of a font went. `loads` tells whether the first family
    /// that it brought can be loaded, and `chain` holds the families in use.
    pub fn finish_font_import(
        &mut self,
        import: FontImport,
        loads: bool,
        chain: &Vec<String>,
        fx: &mut Fx,
    )
        requires
            old(self).font.families@.len() > 0,
            import matches FontImport::Added(f) ==> old(self).font.families@.len() + f@.len()
                <= usize::MAX,
        ensures
            old(self).imported(*final(self), import, loads, texts(chain@)),
            *final(fx) == (match import {
                FontImport::Added(f) => if f@.len() == 0 {
                    *old(fx)
                } else if loads {
                    old(fx).font_queued(final(self).font.in_use()).saved().redrawn()
                } else {
                    old(fx).touched()
                },
                _ => old(fx).marked(),
            }),
    {
        match import {
            FontImport::Refused(e) => {
                self.font.notice = Some(e);
                fx.mark();
            },
            FontImport::Broken(e) => {
                self.font.notice = Some(concat2("字体无法加载：", e.as_str()));
                fx.mark();
            },
            FontImport::Added(families) => {
                self.font.add_imported_families(&families);
                if families.len() > 0 {
                    self.font.apply_font_family(families[0].as_str(), loads, chain, fx);
                }
            },
        }
        self.page.dropdown = None;
    }
}

/// However the catalog looks, the list of families starts with the required one, holds it
/// once, and holds the one in use.
pub proof fn catalog_holds_required_and_current(
    catalog: Seq<Seq<char>>,
    required: Seq<char>,
    primary: Seq<char>,
)
    ensures
        catalog_order(catalog, required, primary)[0] == required,
        catalog_order(catalog, required, primary).contains(primary),
        crate::hosts::at_most_once(catalog_order(catalog, required, primary), required),
{
    let w = without(catalog, required);
    crate::hosts::lemma_without_absent(catalog, required);
    let rest = seq![required] + w;
    let all = catalog_order(catalog, required, primary);
    assert(rest[0] == required);
    assert forall|i: int| 0 < i < rest.len() implies rest[i] != required by {
        assert(w.contains(w[i - 1]));
    }
    if !rest.contains(primary) {
        assert(all[rest.len() as int] == primary);
        assert(primary != required);
    }
}

/// The list of families is the required one, the rest of the catalog in its order, and the
/// one in use behind them where it is neither.
pub proof fn catalog_keeps_its_families(
    catalog: Seq<Seq<char>>,
    required: Seq<char>,
    primary: Seq<char>,
)
    ensures
        ({
            let rest = catalog.filter(|f: Seq<char>| f != required);
            catalog_order(catalog, required, primary) == (if primary == required
                || catalog.contains(primary) {
                seq![required] + rest
            } else {
                (seq![required] + rest).push(primary)
            })
        }),
        forall|f: Seq<char>|
            #[trigger] catalog_order(catalog, required, primary).contains(f) <==> f == required || f
                == primary || catalog.contains(f),
{
    crate::hosts::other_hosts_stay(catalog, required);
    let rest = without(catalog, required);
    let base = seq![required] + rest;
    let all = catalog_order(catalog, required, primary);
    assert forall|f: Seq<char>| #[trigger] base.contains(f) <==> f == required || rest.contains(
        f,
    ) by {
        if f == required {
            assert(base[0] == f);
        }
        if rest.contains(f) {
            let i = choose|i: int| 0 <= i < rest.len() && rest[i] == f;
            assert(base[i + 1] == f);
        }
        if base.contains(f) && f != required {
            let i = choose|i: int| 0 <= i < base.len() && base[i] == f;
            assert(rest[i - 1] == f);
        }
    }
    assert forall|f: Seq<char>| #[trigger] all.contains(f) <==> f == required || f == primary
        || catalog.contains(f) by {
        assert(base.contains(f) <==> f == required || rest.contains(f));
        assert(base.contains(primary) <==> primary == required || rest.contains(primary));
        if !base.contains(primary) {
            assert(all == base.push(primary));
            assert(all[base.len() as int] == primary);
            if base.contains(f) {
                let i = choose|i: int| 0 <= i < base.len() && base[i] == f;
                assert(all[i] == f);
            }
        }
    }
    assert(base.contains(primary) <==> primary == required || rest.contains(primary));
}

proof fn lemma_proportional(catalog: Seq<CatalogEntry>, k: int)
    requires
        0 <= k <= catalog.len(),
    ensures
        proportional_names(catalog, k) == catalog.take(k).filter(
            |e: CatalogEntry| !e.monospaced,
        ).map_values(|e: CatalogEntry| lowercase(e.name@)),
    decreases k,
{
    reveal(Seq::filter);
    let wide = |e: CatalogEntry| !e.monospaced;
    if k > 0 {
        lemma_proportional(catalog, k - 1);
        assert(catalog.take(k).drop_last() =~= catalog.take(k - 1));
    }
    assert(proportional_names(catalog, k) =~= catalog.take(k).filter(wide).map_values(
        |e: CatalogEntry| lowercase(e.name@),
    ));
}

/// Exactly the families without a fixed width count as proportional, all of them.
pub proof fn proportional_families_have_no_fixed_width(catalog: Seq<CatalogEntry>)
    ensures
        proportional_names(catalog, catalog.len() as int) == catalog.filter(
            |e: CatalogEntry| !e.monospaced,
        ).map_values(|e: CatalogEntry| lowercase(e.name@)),
{
    lemma_proportional(catalog, catalog.len() as int);
    assert(catalog.take(catalog.len() as int) =~= catalog);
}

proof fn lemma_fallbacks(chain: Seq<Seq<char>>, family: Seq<char>, k: int)
    requires
        1 <= k <= chain.len(),
    ensures
        fallbacks(chain, family, k) == chain.subrange(1, k).filter(
            |f: Seq<char>| f != family,
        ).map_values(|f: Seq<char>| ", "@ + f).flatten_alt(),
    decreases k,
{
    reveal(Seq::filter);
    let other = |f: Seq<char>| f != family;
    let behind = |f: Seq<char>| ", "@ + f;
    let all = chain.subrange(1, k).filter(other).map_values(behind);
    if k > 1 {
        lemma_fallbacks(chain, family, k - 1);
        let s = chain.subrange(1, k);
        let before = chain.subrange(1, k - 1).filter(other).map_values(behind);
        assert(s.drop_last() =~= chain.subrange(1, k - 1));
        assert(s.last() == chain[k - 1]);
        if chain[k - 1] != family {
            assert(all =~= before.push(", "@ + chain[k - 1]));
            assert(all.drop_last() =~= before);
            assert(fallbacks(chain, family, k) =~= before.flatten_alt() + (", "@ + chain[k - 1]));
        } else {
            assert(all =~= before);
        }
    } else {
        assert(chain.subrange(1, k) =~= Seq::empty());
        assert(all =~= Seq::empty());
        assert(fallbacks(chain, family, k) =~= all.flatten_alt());
    }
}

/// A picked family takes the place of the first one. Every other family of the chain stays
/// behind it in its order, each behind a comma; the picked one is not listed twice.
pub proof fn picked_family_keeps_fallbacks(chain: Seq<Seq<char>>, family: Seq<char>)
    ensures
        chain.len() > 0 ==> replaced_primary(chain, family) == family + chain.subrange(
            1,
            chain.len() as int,
        ).filter(|f: Seq<char>| f != family).map_values(|f: Seq<char>| ", "@ + f).flatten_alt(),
        chain.len() == 0 ==> replaced_primary(chain, family) == family,
{
    if chain.len() > 0 {
        lemma_fallbacks(chain, family, chain.len() as int);
    } else {
        assert(replaced_primary(chain, family) =~= family);
    }
}

proof fn lemma_imported_families(known: Seq<Seq<char>>, imported: Seq<Seq<char>>, k: int)
    requires
        0 <= k <= imported.len(),
    ensures
        ({
            let all = with_imported(known, imported, k);
            &&& known.len() <= all.len() && all.take(known.len() as int) == known
            &&& forall|f: Seq<char>|
                #[trigger] all.contains(f) <==> known.contains(f) || imported.take(k).contains(f)
            &&& forall|i: int, j: int|
                known.len() <= i < all.len() && 0 <= j < i ==> #[trigger] all[i]
                    != #[trigger] all[j]
        }),
    decreases k,
{
    let all = with_imported(known, imported, k);
    if k > 0 {
        lemma_imported_families(known, imported, k - 1);
        let before = with_imported(known, imported, k - 1);
        let x = imported[k - 1];
        let some = imported.take(k);
        let fewer = imported.take(k - 1);
        assert(some =~= fewer.push(x));
        assert forall|f: Seq<char>| #[trigger] some.contains(f) <==> fewer.contains(f) || f == x by {
            if fewer.contains(f) {
                let i = choose|i: int| 0 <= i < fewer.len() && fewer[i] == f;
                assert(some[i] == f);
            }
            if f == x {
                assert(some[k - 1] == f);
            }
            if some.contains(f) && f != x {
                let i = choose|i: int| 0 <= i < some.len() && some[i] == f;
                assert(fewer[i] == f);
            }
        }
        if before.contains(x) {
            assert(all == before);
        } else {
            assert(all == before.push(x));
            assert(all.take(known.len() as int) =~= before.take(known.len() as int));
            assert forall|f: Seq<char>| #[trigger] all.contains(f) <==> known.contains(f)
                || imported.take(k).contains(f) by {
                assert(before.contains(f) <==> known.contains(f) || imported.take(k - 1).contains(
                    f,
                ));
                assert(imported.take(k).contains(f) <==> imported.take(k - 1).contains(f) || f
                    == x);
                if f == x {
                    assert(all[before.len() as int] == f);
                }
                if before.contains(f) {
                    let i = choose|i: int| 0 <= i < before.len() && before[i] == f;
                    assert(all[i] == f);
                }
                if all.contains(f) && f != x {
                    let i = choose|i: int| 0 <= i < all.len() && all[i] == f;
                    assert(before[i] == f);
                }
            }
            assert forall|i: int, j: int|
                known.len() <= i < all.len() && 0 <= j < i implies #[trigger] all[i]
                != #[trigger] all[j] by {
                assert(all[j] == before[j]);
                if i < before.len() {
                    assert(all[i] == before[i]);
                } else {
                    assert(before.contains(before[j]));
                }
            }
        }
    } else {
        assert(all.take(known.len() as int) =~= known);
        assert(imported.take(k) =~= Seq::empty());
    }
}

/// An import adds every family that it brought to the known ones, and each once: the known
/// ones stay in front as they were, and nothing is listed that neither knows.
pub proof fn import_adds_new_families(known: Seq<Seq<char>>, imported: Seq<Seq<char>>)
    ensures
        ({
            let all = with_imported(known, imported, imported.len() as int);
            &&& known.len() <= all.len() && all.take(known.len() as int) == known
            &&& forall|f: Seq<char>|
                #[trigger] all.contains(f) <==> known.contains(f) || imported.contains(f)
            &&& forall|i: int, j: int|
                known.len() <= i < all.len() && 0 <= j < i ==> #[trigger] all[i]
                    != #[trigger] all[j]
        }),
{
    lemma_imported_families(known, imported, imported.len() as int);
    assert(imported.take(imported.len() as int) =~= imported);
}

/// Texts are ordered by their first difference; a text comes before what it begins.
pub proof fn texts_are_ordered_by_their_first_difference(
    shared: Seq<char>,
    a: Seq<char>,
    b: Seq<char>,
)
    ensures
        text_le(shared + a, shared + b) == text_le(a, b),
        text_le(shared, shared + b),
        a.len() > 0 ==> !text_le(shared + a, shared),
        a.len() > 0 && b.len() > 0 && a[0] < b[0] ==> text_le(shared + a, shared + b) && !text_le(
            shared + b,
            shared + a,
        ),
    decreases shared.len(),
{
    if shared.len() > 0 {
        texts_are_ordered_by_their_first_difference(shared.skip(1), a, b);
        assert((shared + a).skip(1) =~= shared.skip(1) + a);
        assert((shared + b).skip(1) =~= shared.skip(1) + b);
    } else {
        assert(shared + a =~= a);
        assert(shared + b =~= b);
    }
}

/// The font list moves by what it was scrolled, between its top and its last page.
pub proof fn font_list_scrolls_to_its_ends(s: FontState, delta: i32, total: usize)
    ensures
        ({
            let to = s.scrolled(delta, total);
            let wanted = s.popup_scroll + delta;
            &&& 0 <= to
            &&& total <= 8 ==> to == 0
            &&& total > 8 ==> to + 8 <= total
            &&& wanted >= 0 && wanted + 8 <= total ==> to == wanted
            &&& wanted < 0 ==> to == 0
            &&& wanted + 8 > total && total >= 8 && wanted >= 0 ==> to == total - 8
        }),
{
}

/// A row of the font list stands for the family at that place; the two rows behind them
/// switch the filter and import, and there are no others.
pub proof fn font_rows_are_families_and_two_more(s: FontState, index: usize)
    ensures
        s.pick(index) is Family <==> index < s.families@.len(),
        s.pick(index) is ShowAll <==> index == s.families@.len(),
        s.pick(index) is Import <==> index == s.families@.len() + 1,
        s.pick(index) is Nothing <==> index >= s.families@.len() + 2,
        s.in_use().family == s.family && s.in_use().size_bits == s.size_bits,
{
}

/// A family that loads takes the place of the first one in use, with the others behind it;
/// one that does not changes nothing but the notice.
pub proof fn loaded_family_is_used(
    s: &mut FontState,
    family: &str,
    loads: bool,
    chain: Vec<String>,
    fx: &mut Fx,
)
    requires
        call_ensures(FontState::apply_font_family, (s, family, loads, &chain, fx), ()),
    ensures
        !loads ==> final(s).family == old(s).family && final(s).notice is Some && final(fx).persist
            == old(fx).persist && final(fx).update.font == old(fx).update.font,
        loads ==> final(s).notice is None && final(fx).persist && final(fx).update.font == Some(
            final(s).in_use(),
        ),
        loads ==> final(s).family@.len() >= family@.len() && final(s).family@.take(
            family@.len() as int,
        ) == family@,
        loads && chain@.len() > 0 ==> final(s).family@ == family@ + texts(chain@).subrange(
            1,
            chain@.len() as int,
        ).filter(|f: Seq<char>| f != family@).map_values(|f: Seq<char>| ", "@ + f).flatten_alt(),
        final(s).families == old(s).families && final(s).size_bits == old(s).size_bits,
{
    let c = texts(chain@);
    assert(c.len() == chain@.len());
    let fam = family@;
    picked_family_keeps_fallbacks(c, fam);
    let p = |f: Seq<char>| f != fam;
    let q = |f: Seq<char>| f != family@;
    assert(p =~= q);
    if loads {
        assert(final(s).family@.take(family@.len() as int) =~= family@);
    }
}

/// The catalog lists the required family first, everything that is installed, and the family
/// in use.
pub proof fn catalog_lists_everything_installed(
    s: &mut FontState,
    catalog: Vec<CatalogEntry>,
    required: &str,
    primary: &str,
    i: int,
)
    requires
        call_ensures(FontState::rebuild_font_catalog, (s, &catalog, required, primary), ()),
        0 <= i < catalog@.len(),
    ensures
        texts(final(s).families@)[0] == required@,
        texts(final(s).families@).contains(catalog@[i].name@),
        texts(final(s).families@).contains(primary@),
        texts(final(s).proportional@) == catalog@.filter(
            |e: CatalogEntry| !e.monospaced,
        ).map_values(|e: CatalogEntry| lowercase(e.name@)),
        final(s).popup_scroll == 0 && final(s).family == old(s).family && final(s).query
            == old(s).query,
{
    let names = entry_names(catalog@);
    catalog_keeps_its_families(names, required@, primary@);
    catalog_holds_required_and_current(names, required@, primary@);
    proportional_families_have_no_fixed_width(catalog@);
    assert(names[i] == catalog@[i].name@);
    assert(names.contains(catalog@[i].name@));
}

/// Imported families are listed with the known ones, the first of the list staying first and
/// the rest in order.
pub proof fn imported_families_are_listed(s: &mut FontState, imported: Vec<String>, f: Seq<char>)
    requires
        call_ensures(FontState::add_imported_families, (s, &imported), ()),
        old(s).families@.len() > 0,
    ensures
        texts(final(s).families@)[0] == texts(old(s).families@)[0],
        in_order(texts(final(s).families@).skip(1)),
        texts(final(s).families@).to_multiset() == with_imported(
            texts(old(s).families@),
            texts(imported@),
            imported@.len() as int,
        ).to_multiset(),
        final(s).family == old(s).family,
{
    let known = texts(old(s).families@);
    let new = texts(imported@);
    assert(known.len() == old(s).families@.len() && new.len() == imported@.len());
    let all = with_imported(known, new, imported@.len() as int);
    import_adds_new_families(known, new);
    ordered_sorts(all.skip(1));
    let now = texts(final(s).families@);
    assert(all.take(known.len() as int)[0] == known[0]);
    assert(now == all.take(1) + ordered(all.skip(1)));
    assert(now.skip(1) =~= ordered(all.skip(1)));
    assert(all =~= all.take(1) + all.skip(1));
    vstd::seq_lib::lemma_multiset_commutative(all.take(1), ordered(all.skip(1)));
    vstd::seq_lib::lemma_multiset_commutative(all.take(1), all.skip(1));
}

/// The list scrolls by what it is told, between its top and its last page, and tells whether
/// it moved.
pub proof fn font_list_scrolls(s: &mut FontState, delta: i32, total: usize, fx: &mut Fx, r: bool)
    requires
        call_ensures(FontState::font_popup_scroll_by, (s, delta, total, fx), r),
        old(s).popup_scroll <= i32::MAX,
        total <= i32::MAX,
    ensures
        r <==> final(s).popup_scroll != old(s).popup_scroll,
        total <= 8 ==> final(s).popup_scroll == 0,
        total > 8 ==> final(s).popup_scroll + 8 <= total,
        0 <= old(s).popup_scroll + delta && old(s).popup_scroll + delta + 8 <= total
            ==> final(s).popup_scroll == old(s).popup_scroll + delta,
        final(s).families == old(s).families && final(s).query == old(s).query,
{
}

/// The filter of the list turns over and lists anew from the top.
pub proof fn font_filter_turns_over(s: &mut FontState, fx: &mut Fx)
    requires
        call_ensures(FontState::toggle_font_show_all, (s, fx), ()),
    ensures
        final(s).show_all != old(s).show_all && final(s).popup_scroll == 0,
        final(fx).requests.rebuild_fonts && final(fx).redraw,
        final(s).family == old(s).family && final(s).query == old(s).query,
{
}

/// Typing searches the catalog anew; what cannot be typed does not.
pub proof fn typing_searches_the_catalog(s: &mut FontState, text: &str, fx: &mut Fx)
    requires
        call_ensures(FontState::font_query_edit, (s, Some(text), fx), ()),
        old(s).query.wf(),
    ensures
        printable(text@).len() == 0 ==> *final(fx) == *old(fx) && final(s).query == old(s).query,
        printable(text@).len() > 0 ==> final(fx).requests.rebuild_fonts
            && final(fx).requests.refresh_ime && final(s).query.text@
            == old(s).query.text@.take(old(s).query.selection().0) + printable(text@)
            + old(s).query.text@.skip(old(s).query.selection().1),
        final(s).family == old(s).family && final(s).families == old(s).families,
{
    let q = old(s).query;
    if printable(text@).len() > 0 {
        assert(final(s).query.text@ =~= q.text@.take(q.selection().0) + printable(text@)
            + q.text@.skip(q.selection().1));
    }
}

/// A row that is picked takes its family where it loads, turns the filter, or asks for an
/// import; the list closes with a family alone.
pub proof fn picked_font_row_is_taken(
    s: &mut SettingsUi,
    index: usize,
    loads: bool,
    chain: Vec<String>,
    fx: &mut Fx,
    pick: FontPick,
)
    requires
        call_ensures(
            SettingsUi::set_terminal_font_by_index,
            (s, index, loads, &chain, fx),
            pick,
        ),
    ensures
        ({
            let n = old(s).font.families@.len();
            &&& pick is Family <==> index < n
            &&& pick is ShowAll <==> index == n
            &&& pick is Import <==> index == n + 1
            &&& index < n ==> final(s).page.dropdown is None
            &&& index < n && !loads ==> final(s).font.family == old(s).font.family
                && final(s).font.notice is Some
            &&& index < n && loads ==> final(s).font.family@.take(
                old(s).font.families@[index as int]@.len() as int,
            ) == old(s).font.families@[index as int]@ && final(fx).persist
            &&& index == n ==> final(s).font.show_all != old(s).font.show_all
                && final(s).page.dropdown == old(s).page.dropdown
            &&& index > n ==> *final(s) == *old(s)
        }),
        final(s).font.families == old(s).font.families && final(s).color == old(s).color,
{
    if index < old(s).font.families@.len() && loads {
        let f = old(s).font.families@[index as int]@;
        assert(final(s).font.family@.take(f.len() as int) =~= f);
    }
}

/// An import that worked lists its families and takes the first where it loads; one that did
/// not tells why and lists nothing new.
pub proof fn import_is_taken_over(
    s: &mut SettingsUi,
    import: FontImport,
    loads: bool,
    chain: Vec<String>,
    fx: &mut Fx,
)
    requires
        call_ensures(SettingsUi::finish_font_import, (s, import, loads, &chain, fx), ()),
    ensures
        final(s).page.dropdown is None,
        !(import is Added) ==> final(s).font.notice is Some && final(s).font.families
            == old(s).font.families && final(s).font.family == old(s).font.family,
        import matches FontImport::Refused(e) ==> final(s).font.notice == Some(e),
        import matches FontImport::Added(f) ==> {
            &&& f@.len() == 0 ==> final(s).font.family == old(s).font.family
            &&& f@.len() > 0 && loads ==> final(s).font.notice is None
                && final(s).font.family@.take(f@[0]@.len() as int) == f@[0]@
            &&& f@.len() > 0 && !loads ==> final(s).font.family == old(s).font.family
                && final(s).font.notice is Some
        },
        final(s).font.size_bits == old(s).font.size_bits && final(s).color == old(s).color,
{
    if import is Added {
        let f = match import {
            FontImport::Added(f) => f@,
            _ => Seq::empty(),
        };
        if f.len() > 0 && loads {
            assert(final(s).font.family@.take(f[0]@.len() as int) =~= f[0]@);
        }
    }
}

/// Another scale of the window asks for the font in its new size; the thumb of the list
/// leads it while it is held.
pub proof fn scale_and_thumb_are_followed(
    s: &mut FontState,
    changed: bool,
    size_bits: u32,
    fx: &mut Fx,
    t: &mut FontState,
    target: Option<usize>,
    fx2: &mut Fx,
    r: bool,
)
    requires
        call_ensures(FontState::apply_scale_factor_change, (s, changed, size_bits, fx), ()),
        call_ensures(FontState::font_popup_scrollbar_drag_to, (t, target, fx2), r),
    ensures
        changed ==> final(s).size_bits == size_bits && final(s).family == old(s).family && final(fx).update.font == Some(final(s).in_use()),
        !changed ==> *final(s) == *old(s) && *final(fx) == *old(fx),
        r <==> old(t).popup_drag is Some && target is Some,
        r ==> final(t).popup_scroll == target->0,
        !r ==> *final(t) == *old(t),
        final(t).popup_drag == old(t).popup_drag && final(t).families == old(t).families,
{
}

} // verus!
