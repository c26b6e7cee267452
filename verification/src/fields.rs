//! One-line text fields with a caret and a selection.
use crate::text::{chars_of, is_control, text_range};
use vstd::prelude::*;

verus! {

/// A line of text being edited: the caret stands before the character of its index, and
/// a selection reaches from the anchor to the caret.
#[derive(Debug)]
pub struct TextField {
    pub text: Vec<char>,
    pub caret: usize,
    pub anchor: Option<usize>,
}

/// `s` with the characters `lo..hi` replaced.
pub open spec fn spliced(s: Seq<char>, lo: int, hi: int, with: Seq<char>) -> Seq<char> {
    s.take(lo) + with + s.skip(hi)
}

/// `s` without its control characters.
pub open spec fn printable(s: Seq<char>) -> Seq<char>
    decreases s.len(),
{
    if s.len() == 0 {
        Seq::empty()
    } else if crate::text::is_control_char(s.last()) {
        printable(s.drop_last())
    } else {
        printable(s.drop_last()).push(s.last())
    }
}

/// The characters of `text` that are no control characters.
pub fn printable_chars(text: &str) -> (r: Vec<char>)
    ensures
        r@ == printable(text@),
{
    let chars = chars_of(text);
    let mut r: Vec<char> = Vec::new();
    let mut i: usize = 0;
    proof {
        assert(text@.take(0) =~= Seq::<char>::empty());
    }
    while i < chars.len()
        invariant
            i <= chars@.len(),
            chars@ == text@,
            r@ == printable(text@.take(i as int)),
        decreases chars@.len() - i,
    {
        proof {
            assert(text@.take(i + 1).drop_last() =~= text@.take(i as int));
        }
        let c: char = chars[i];
        if !is_control(c) {
            r.push(c);
        }
        i += 1;
    }
    proof {
        assert(text@.take(i as int) =~= text@);
    }
    r
}

/// Replaces the characters `lo..hi` of `text`.
pub fn splice(text: &mut Vec<char>, lo: usize, hi: usize, with: &Vec<char>)
    requires
        lo <= hi <= old(text)@.len(),
    ensures
        final(text)@ == spliced(old(text)@, lo as int, hi as int, with@),
{
    let ghost before = text@;
    let mut tail = text.split_off(hi);
    text.truncate(lo);
    let mut i: usize = 0;
    proof {
        assert(text@ =~= before.take(lo as int) + with@.take(0));
        assert(tail@ =~= before.skip(hi as int));
    }
    while i < with.len()
        invariant
            i <= with@.len(),
            text@ == before.take(lo as int) + with@.take(i as int),
        decreases with@.len() - i,
    {
        text.push(with[i]);
        proof {
            assert(text@ =~= before.take(lo as int) + with@.take(i + 1));
        }
        i += 1;
    }
    proof {
        assert(with@.take(i as int) =~= with@);
    }
    text.append(&mut tail);
    proof {
        assert(text@ =~= spliced(before, lo as int, hi as int, with@));
    }
}

impl TextField {
    pub open spec fn wf(self) -> bool {
        &&& self.caret <= self.text@.len()
        &&& self.anchor matches Some(a) ==> a <= self.text@.len()
    }

    /// First and past-the-last index of the selection; both are the caret without one.
    pub open spec fn selection(self) -> (int, int) {
        match self.anchor {
            Some(a) => if a <= self.caret {
                (a as int, self.caret as int)
            } else {
                (self.caret as int, a as int)
            },
            None => (self.caret as int, self.caret as int),
        }
    }

    pub open spec fn has_selection(self) -> bool {
        self.selection().0 < self.selection().1
    }

    /// Whether the field holds nothing and nothing is selected in it.
    pub open spec fn is_blank(self) -> bool {
        &&& self.text@.len() == 0
        &&& self.caret == 0
        &&& self.anchor is None
    }

    /// An empty field.
    pub fn empty() -> (f: TextField)
        ensures
            f.wf(),
            f.text@ == Seq::<char>::empty(),
            f.is_blank(),
    {
        TextField { text: Vec::new(), caret: 0, anchor: None }
    }

    /// A field that holds `text`, the caret behind it.
    pub fn holding(text: &str) -> (f: TextField)
        ensures
            f.wf(),
            f.text@ == text@,
            f.caret == text@.len(),
            f.anchor is None,
    {
        let text = chars_of(text);
        let caret: usize = text.len();
        TextField { text, caret, anchor: None }
    }

    fn selected_range(&self) -> (r: (usize, usize))
        requires
            self.wf(),
        ensures
            r.0 == self.selection().0,
            r.1 == self.selection().1,
            r.0 <= r.1 <= self.text@.len(),
    {
        match self.anchor {
            Some(a) => if a <= self.caret {
                (a, self.caret)
            } else {
                (self.caret, a)
            },
            None => (self.caret, self.caret),
        }
    }

    /// Types `with` over the selection or at the caret.
    pub fn insert(&mut self, with: &Vec<char>)
        requires
            old(self).wf(),
            old(self).text@.len() + with@.len() <= usize::MAX,
        ensures
            final(self).wf(),
            final(self).text@ == spliced(
                old(self).text@,
                old(self).selection().0,
                old(self).selection().1,
                with@,
            ),
            final(self).caret == old(self).selection().0 + with@.len(),
            final(self).anchor is None,
    {
        let (lo, hi): (usize, usize) = self.selected_range();
        splice(&mut self.text, lo, hi, with);
        self.caret = lo + with.len();
        self.anchor = None;
    }

    /// The field after a backspace.
    pub open spec fn erased_back(self) -> (Seq<char>, int) {
        let (lo, hi) = self.selection();
        if lo < hi {
            (spliced(self.text@, lo, hi, Seq::empty()), lo)
        } else if lo > 0 {
            (spliced(self.text@, lo - 1, lo, Seq::empty()), lo - 1)
        } else {
            (self.text@, lo)
        }
    }

    /// Deletes the selection, or the character before the caret.
    pub fn backspace(&mut self)
        requires
            old(self).wf(),
        ensures
            final(self).wf(),
            (final(self).text@, final(self).caret as int) == old(self).erased_back(),
            final(self).anchor is None,
    {
        let (lo, hi): (usize, usize) = self.selected_range();
        let none: Vec<char> = Vec::new();
        if lo < hi {
            splice(&mut self.text, lo, hi, &none);
            self.caret = lo;
        } else if lo > 0 {
            splice(&mut self.text, lo - 1, lo, &none);
            self.caret = lo - 1;
        }
        self.anchor = None;
    }

    /// The text after a delete; the caret ends where the selection began.
    pub open spec fn erased_forward(self) -> Seq<char> {
        let (lo, hi) = self.selection();
        if lo < hi {
            spliced(self.text@, lo, hi, Seq::empty())
        } else if lo < self.text@.len() {
            spliced(self.text@, lo, lo + 1, Seq::empty())
        } else {
            self.text@
        }
    }

    /// Deletes the selection, or the character behind the caret.
    pub fn delete_forward(&mut self)
        requires
            old(self).wf(),
        ensures
            final(self).wf(),
            final(self).text@ == old(self).erased_forward(),
            final(self).caret == old(self).selection().0,
            final(self).anchor is None,
    {
        let (lo, hi): (usize, usize) = self.selected_range();
        let none: Vec<char> = Vec::new();
        if lo < hi {
            splice(&mut self.text, lo, hi, &none);
        } else if lo < self.text.len() {
            splice(&mut self.text, lo, lo + 1, &none);
        }
        self.caret = lo;
        self.anchor = None;
    }

    /// Where the caret goes by `delta` characters: a selection that is not extended
    /// collapses to the matching end instead.
    pub open spec fn moved(self, delta: int, extend: bool) -> int {
        let to = self.caret + delta;
        if !extend && self.has_selection() {
            if delta < 0 {
                self.selection().0
            } else {
                self.selection().1
            }
        } else if to < 0 {
            0
        } else if to > self.text@.len() {
            self.text@.len() as int
        } else {
            to
        }
    }

    /// The anchor after a caret motion.
    pub open spec fn anchored(self, extend: bool) -> Option<usize> {
        if !extend {
            None
        } else if self.anchor is Some {
            self.anchor
        } else {
            Some(self.caret)
        }
    }

    /// Moves the caret, stretching the selection where `extend` is set.
    pub fn move_by(&mut self, delta: i32, extend: bool)
        requires
            old(self).wf(),
        ensures
            final(self).wf(),
            final(self).text == old(self).text,
            final(self).caret == old(self).moved(delta as int, extend),
            final(self).anchor == old(self).anchored(extend),
    {
        let (lo, hi): (usize, usize) = self.selected_range();
        let to: usize = if !extend && lo < hi {
            if delta < 0 {
                lo
            } else {
                hi
            }
        } else if delta < 0 {
            self.caret.saturating_sub((-(delta as i64)) as usize)
        } else {
            let step: usize = delta as usize;
            if step <= self.text.len() - self.caret {
                self.caret + step
            } else {
                self.text.len()
            }
        };
        self.set_caret(to, extend);
    }

    fn set_caret(&mut self, to: usize, extend: bool)
        requires
            old(self).wf(),
            to <= old(self).text@.len(),
        ensures
            final(self).wf(),
            final(self).text == old(self).text,
            final(self).caret == to,
            final(self).anchor == old(self).anchored(extend),
    {
        if !extend {
            self.anchor = None;
        } else if self.anchor.is_none() {
            self.anchor = Some(self.caret);
        }
        self.caret = to;
    }

    /// Moves the caret to the start or the end.
    pub fn jump(&mut self, to_end: bool, extend: bool)
        requires
            old(self).wf(),
        ensures
            final(self).wf(),
            final(self).text == old(self).text,
            final(self).caret == (if to_end {
                old(self).text@.len() as int
            } else {
                0
            }),
            final(self).anchor == old(self).anchored(extend),
    {
        let to: usize = if to_end {
            self.text.len()
        } else {
            0
        };
        self.set_caret(to, extend);
    }

    /// Selects everything.
    pub fn select_all(&mut self)
        ensures
            final(self).wf(),
            final(self).text == old(self).text,
            final(self).caret == old(self).text@.len(),
            final(self).anchor == Some(0usize),
    {
        self.anchor = Some(0);
        self.caret = self.text.len();
    }

    /// The selected characters, where there are any.
    pub fn selected_text(&self) -> (r: Option<String>)
        requires
            self.wf(),
        ensures
            r is Some <==> self.has_selection(),
            r matches Some(s) ==> s@ == self.text@.subrange(self.selection().0, self.selection().1),
    {
        let (lo, hi): (usize, usize) = self.selected_range();
        if lo < hi {
            Some(text_range(&self.text, lo, hi))
        } else {
            None
        }
    }

    /// Puts the caret before the character `index`, or behind the last one.
    pub fn place(&mut self, index: usize, extend: bool)
        requires
            old(self).wf(),
        ensures
            final(self).wf(),
            final(self).text == old(self).text,
            final(self).caret == (if index <= old(self).text@.len() {
                index as int
            } else {
                old(self).text@.len() as int
            }),
            final(self).anchor == old(self).anchored(extend),
    {
        let to: usize = if index <= self.text.len() {
            index
        } else {
            self.text.len()
        };
        self.set_caret(to, extend);
    }
}

/// Typing a character and erasing it gives the text and the caret again, where nothing
/// was selected.
pub proof fn backspace_undoes_insert(before: TextField, after: TextField, c: char)
    requires
        before.wf(),
        !before.has_selection(),
        after.text@ == spliced(
            before.text@,
            before.selection().0,
            before.selection().1,
            seq![c],
        ),
        after.caret == before.selection().0 + 1,
        after.anchor is None,
    ensures
        after.erased_back() == (before.text@, before.selection().0),
{
    let lo = before.selection().0;
    assert(spliced(after.text@, lo, lo + 1, Seq::empty()) =~= before.text@);
}

/// Exactly the characters that are no control characters stay, in their order.
pub proof fn only_control_characters_are_dropped(s: Seq<char>)
    ensures
        printable(s) == s.filter(|c: char| !(c < ' ' || '\u{7f}' <= c < '\u{a0}')),
    decreases s.len(),
{
    reveal(Seq::filter);
    if s.len() > 0 {
        only_control_characters_are_dropped(s.drop_last());
        crate::text::blank_and_control_characters(s.last());
    } else {
        assert(printable(s) =~= s);
    }
}

/// Replacing a part of a text leaves what stands before and behind it, and puts the new
/// text between them.
pub proof fn replacing_keeps_both_sides(s: Seq<char>, lo: int, hi: int, with: Seq<char>)
    requires
        0 <= lo <= hi <= s.len(),
    ensures
        ({
            let r = spliced(s, lo, hi, with);
            &&& r.len() == s.len() - (hi - lo) + with.len()
            &&& forall|i: int| 0 <= i < lo ==> #[trigger] r[i] == s[i]
            &&& forall|i: int| 0 <= i < with.len() ==> #[trigger] r[lo + i] == with[i]
            &&& forall|i: int|
                hi <= i < s.len() ==> #[trigger] s[i] == r[i - hi + lo + with.len()]
        }),
{
}

/// The selection lies between the caret and the anchor, whichever comes first.
pub proof fn selection_lies_between_its_ends(f: TextField)
    ensures
        f.selection().0 <= f.selection().1,
        f.anchor is None ==> f.selection() == (f.caret as int, f.caret as int),
        f.anchor matches Some(a) ==> f.selection() == (a as int, f.caret as int) || f.selection()
            == (f.caret as int, a as int),
        f.has_selection() <==> f.anchor is Some && f.anchor != Some(f.caret),
{
}

/// Erasing takes the selected characters and no other; without a selection it takes the one
/// before the caret, or the one behind it, where there is one.
pub proof fn erasing_takes_what_is_selected(f: TextField)
    requires
        f.wf(),
    ensures
        ({
            let (lo, hi) = f.selection();
            let (back, at) = f.erased_back();
            let forward = f.erased_forward();
            &&& f.has_selection() ==> back == f.text@.take(lo) + f.text@.skip(hi) && at == lo
                && forward == back
            &&& !f.has_selection() && f.caret > 0 ==> back == f.text@.remove(f.caret - 1) && at
                == f.caret - 1
            &&& !f.has_selection() && f.caret == 0 ==> back == f.text@ && at == 0
            &&& !f.has_selection() && f.caret < f.text@.len() ==> forward == f.text@.remove(
                f.caret as int,
            )
            &&& !f.has_selection() && f.caret == f.text@.len() ==> forward == f.text@
        }),
{
    let (lo, hi) = f.selection();
    if f.has_selection() {
        assert(spliced(f.text@, lo, hi, Seq::empty()) =~= f.text@.take(lo) + f.text@.skip(hi));
    } else {
        if f.caret > 0 {
            assert(spliced(f.text@, lo - 1, lo, Seq::empty()) =~= f.text@.remove(f.caret - 1));
        }
        if f.caret < f.text@.len() {
            assert(spliced(f.text@, lo, lo + 1, Seq::empty()) =~= f.text@.remove(f.caret as int));
        }
    }
}

/// The caret moves by as many characters as asked, as far as the text goes. A selection that
/// is not stretched ends: the caret goes to its left end, or to its right one.
pub proof fn caret_moves_within_the_text(f: TextField, delta: int, extend: bool)
    requires
        f.wf(),
    ensures
        0 <= f.moved(delta, extend) <= f.text@.len(),
        (extend || !f.has_selection()) && 0 <= f.caret + delta <= f.text@.len() ==> f.moved(
            delta,
            extend,
        ) == f.caret + delta,
        (extend || !f.has_selection()) && f.caret + delta < 0 ==> f.moved(delta, extend) == 0,
        (extend || !f.has_selection()) && f.caret + delta > f.text@.len() ==> f.moved(delta, extend)
            == f.text@.len(),
        !extend && f.has_selection() && delta < 0 ==> f.moved(delta, extend) == f.selection().0,
        !extend && f.has_selection() && delta > 0 ==> f.moved(delta, extend) == f.selection().1,
        !extend ==> f.anchored(extend) is None,
        extend && f.anchor is Some ==> f.anchored(extend) == f.anchor,
        extend && f.anchor is None ==> f.anchored(extend) == Some(f.caret),
{
}

/// A field that holds a text has its caret behind it; typing goes to the caret in place of
/// what is selected, and erasing takes what is selected or one character.
pub proof fn field_is_edited_at_its_caret(
    s: &mut TextField,
    with: Vec<char>,
    t: &mut TextField,
    text: &str,
    f: TextField,
)
    requires
        call_ensures(TextField::insert, (s, &with), ()),
        call_ensures(TextField::backspace, (t,), ()),
        call_ensures(TextField::holding, (text,), f),
        old(s).wf(),
        old(t).wf(),
    ensures
        f.text@ == text@ && f.caret == text@.len() && f.anchor is None,
        final(s).text@ == old(s).text@.take(old(s).selection().0) + with@ + old(s).text@.skip(
            old(s).selection().1,
        ),
        final(s).caret == old(s).selection().0 + with@.len() && final(s).anchor is None,
        old(t).has_selection() ==> final(t).text@ == old(t).text@.take(old(t).selection().0)
            + old(t).text@.skip(old(t).selection().1),
        !old(t).has_selection() && old(t).caret > 0 ==> final(t).text@ == old(t).text@.take(
            old(t).caret - 1,
        ) + old(t).text@.skip(old(t).caret as int) && final(t).caret == old(t).caret - 1,
        !old(t).has_selection() && old(t).caret == 0 ==> final(t).text@ == old(t).text@,
        final(t).anchor is None,
{
    assert(final(s).text@ =~= old(s).text@.take(old(s).selection().0) + with@ + old(s).text@.skip(
        old(s).selection().1,
    ));
    let x = old(t).text@;
    if old(t).has_selection() {
        assert(final(t).text@ =~= x.take(old(t).selection().0) + x.skip(old(t).selection().1));
    } else if old(t).caret > 0 {
        assert(final(t).text@ =~= x.take(old(t).caret - 1) + x.skip(old(t).caret as int));
    }
}

/// Moving, jumping and placing keep the text and leave the caret in it. Everything can be
/// selected at once.
pub proof fn field_caret_stays_in_its_text(
    s: &mut TextField,
    to_end: bool,
    extend: bool,
    t: &mut TextField,
    index: usize,
    u: &mut TextField,
    r: Option<String>,
)
    requires
        call_ensures(TextField::jump, (s, to_end, extend), ()),
        call_ensures(TextField::place, (t, index, extend), ()),
        call_ensures(TextField::select_all, (u,), ()),
        call_ensures(TextField::selected_text, (&*final(u),), r),
        old(u).text@.len() > 0,
    ensures
        final(s).text == old(s).text && final(t).text == old(t).text && final(u).text
            == old(u).text,
        to_end ==> final(s).caret == old(s).text@.len(),
        !to_end ==> final(s).caret == 0,
        index <= old(t).text@.len() ==> final(t).caret == index,
        index > old(t).text@.len() ==> final(t).caret == old(t).text@.len(),
        !extend ==> final(s).anchor is None && final(t).anchor is None,
        r is Some && (r->0)@ == old(u).text@,
{
    let n = old(u).text@.len() as int;
    assert(final(u).text@.subrange(0, n) =~= old(u).text@);
}

} // verus!
