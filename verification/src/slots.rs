//! Plain input slots: what may be typed into them and how much.
use crate::text::{chars_of, is_control, is_control_char, is_white_space};
use vstd::prelude::*;

verus! {

/// What a slot takes: at most `max` characters, white space only where `spaces` is set,
/// control characters never.
#[derive(Clone, Copy, Debug, PartialEq, Eq, Structural)]
pub struct SlotRule {
    pub max: usize,
    pub spaces: bool,
}

impl SlotRule {
    pub open spec fn takes(self, ch: char) -> bool {
        !is_control_char(ch) && (self.spaces || !is_white_space(ch))
    }

    /// A slot after `ch` was typed into it.
    pub open spec fn typed(self, text: Seq<char>, ch: char) -> Seq<char> {
        if self.takes(ch) && text.len() < self.max {
            text.push(ch)
        } else {
            text
        }
    }

    /// A slot after the whole of `s` was typed into it.
    pub open spec fn pasted(self, text: Seq<char>, s: Seq<char>) -> Seq<char>
        decreases s.len(),
    {
        if s.len() == 0 {
            text
        } else {
            self.typed(self.pasted(text, s.drop_last()), s.last())
        }
    }

    /// The characters of `s` that the slot takes, whatever its length.
    pub open spec fn accepted(self, s: Seq<char>) -> Seq<char>
        decreases s.len(),
    {
        if s.len() == 0 {
            Seq::empty()
        } else if self.takes(s.last()) {
            self.accepted(s.drop_last()).push(s.last())
        } else {
            self.accepted(s.drop_last())
        }
    }

    pub fn accepts(self, ch: char) -> (r: bool)
        ensures
            r == self.takes(ch),
    {
        !is_control(ch) && (self.spaces || !ch.is_whitespace())
    }
}

/// A slot never grows past its limit, holds only what it takes, and keeps what it held.
pub proof fn pasted_slot_stays_in_bounds(rule: SlotRule, text: Seq<char>, s: Seq<char>)
    requires
        text.len() <= rule.max,
    ensures
        rule.pasted(text, s).len() <= rule.max,
        text.len() <= rule.pasted(text, s).len(),
        rule.pasted(text, s).take(text.len() as int) == text,
        forall|i: int|
            text.len() <= i < rule.pasted(text, s).len() ==> rule.takes(
                #[trigger] rule.pasted(text, s)[i],
            ),
    decreases s.len(),
{
    if s.len() == 0 {
        assert(text.take(text.len() as int) =~= text);
    } else {
        pasted_slot_stays_in_bounds(rule, text, s.drop_last());
        let before = rule.pasted(text, s.drop_last());
        let now = rule.pasted(text, s);
        assert(now.take(text.len() as int) =~= before.take(text.len() as int));
        assert forall|i: int| text.len() <= i < now.len() implies rule.takes(#[trigger] now[i]) by {
            if i < before.len() {
                assert(now[i] == before[i]);
            }
        }
    }
}

/// Types a character into a slot. The result tells whether it was taken.
pub fn type_into(slot: &mut Vec<char>, rule: SlotRule, ch: char) -> (r: bool)
    ensures
        final(slot)@ == rule.typed(old(slot)@, ch),
        r == (rule.takes(ch) && old(slot)@.len() < rule.max),
{
    if rule.accepts(ch) && slot.len() < rule.max {
        slot.push(ch);
        return true;
    }
    false
}

/// Types a text into a slot, character by character. The result tells whether anything was
/// taken.
pub fn paste_into(slot: &mut Vec<char>, rule: SlotRule, text: &str) -> (changed: bool)
    ensures
        final(slot)@ == rule.pasted(old(slot)@, text@),
        changed == (final(slot)@ != old(slot)@),
{
    let chars = chars_of(text);
    let ghost first = slot@;
    let mut changed: bool = false;
    let mut k: usize = 0;
    proof {
        assert(text@.take(0) =~= Seq::<char>::empty());
    }
    while k < chars.len()
        invariant
            k <= chars@.len(),
            chars@ == text@,
            slot@ == rule.pasted(first, text@.take(k as int)),
            slot@.len() >= first.len(),
            changed ==> slot@.len() > first.len(),
            !changed ==> slot@ == first,
        decreases chars@.len() - k,
    {
        proof {
            assert(text@.take(k + 1).drop_last() =~= text@.take(k as int));
            assert(text@.take(k + 1).last() == chars@[k as int]);
        }
        if type_into(slot, rule, chars[k]) {
            changed = true;
        }
        k += 1;
    }
    proof {
        assert(text@.take(k as int) =~= text@);
    }
    changed
}

/// The characters of a text that a slot takes.
pub fn accepted_chars(rule: SlotRule, text: &str) -> (r: Vec<char>)
    ensures
        r@ == rule.accepted(text@),
        r@.len() <= text@.len(),
{
    let chars = chars_of(text);
    let mut r: Vec<char> = Vec::new();
    let mut i: usize = 0;
    proof {
        assert(text@.take(0) =~= Seq::<char>::empty());
    }
    while i < chars.len()
        invariant
            i <= chars@.len(),
            chars@ == text@,
            r@ == rule.accepted(text@.take(i as int)),
            r@.len() <= i,
        decreases chars@.len() - i,
    {
        proof {
            assert(text@.take(i + 1).drop_last() =~= text@.take(i as int));
        }
        let c: char = chars[i];
        if rule.accepts(c) {
            r.push(c);
        }
        i += 1;
    }
    proof {
        assert(text@.take(i as int) =~= text@);
    }
    r
}

/// A copy of some characters.
pub fn copy_chars(v: &Vec<char>) -> (r: Vec<char>)
    ensures
        r@ == v@,
{
    let mut r: Vec<char> = Vec::new();
    let mut i: usize = 0;
    while i < v.len()
        invariant
            i <= v@.len(),
            r@ == v@.take(i as int),
        decreases v@.len() - i,
    {
        r.push(v[i]);
        proof {
            assert(r@ =~= v@.take(i + 1));
        }
        i += 1;
    }
    proof {
        assert(v@.take(i as int) =~= v@);
    }
    r
}

/// The texts of some slots.
pub open spec fn slot_texts(v: Seq<Vec<char>>) -> Seq<Seq<char>> {
    v.map_values(|f: Vec<char>| f@)
}

/// Puts a text into the slot `i`.
pub fn set_slot(slots: &mut Vec<Vec<char>>, i: usize, text: Vec<char>)
    requires
        i < old(slots)@.len(),
    ensures
        final(slots)@.len() == old(slots)@.len(),
        slot_texts(final(slots)@) == slot_texts(old(slots)@).update(i as int, text@),
        forall|k: int|
            0 <= k < old(slots)@.len() && k != i ==> #[trigger] final(slots)@[k] == old(slots)@[k],
        final(slots)@[i as int]@ == text@,
{
    let ghost before = slots@;
    slots.set(i, text);
    proof {
        assert(slot_texts(slots@) =~= slot_texts(before).update(i as int, text@));
    }
}

proof fn lemma_accepted_is_a_filter(rule: SlotRule, s: Seq<char>)
    ensures
        rule.accepted(s) == s.filter(|c: char| rule.takes(c)),
    decreases s.len(),
{
    reveal(Seq::filter);
    let pred = |c: char| rule.takes(c);
    if s.len() > 0 {
        lemma_accepted_is_a_filter(rule, s.drop_last());
    } else {
        assert(rule.accepted(s) =~= s);
    }
    assert(rule.accepted(s) == s.filter(pred));
}

/// A slot takes every character but control characters, and white space only where its rule
/// has spaces. What it takes of a text keeps its order.
pub proof fn slot_takes_all_but_control_characters(rule: SlotRule, s: Seq<char>, c: char)
    ensures
        rule.takes(c) <==> !is_control_char(c) && !(is_white_space(c) && !rule.spaces),
        rule.accepted(s) == s.filter(|c: char| rule.takes(c)),
{
    lemma_accepted_is_a_filter(rule, s);
}

/// A pasted text goes behind what the slot holds, without what the slot does not take, and
/// is cut where the slot is full and nowhere before that.
pub proof fn pasting_fills_the_slot(rule: SlotRule, text: Seq<char>, s: Seq<char>)
    requires
        text.len() <= rule.max,
    ensures
        ({
            let room = rule.max - text.len();
            let taken = rule.accepted(s);
            rule.pasted(text, s) == text + (if taken.len() <= room {
                taken
            } else {
                taken.take(room)
            })
        }),
    decreases s.len(),
{
    let room = rule.max - text.len();
    let taken = rule.accepted(s);
    let kept = if taken.len() <= room {
        taken
    } else {
        taken.take(room)
    };
    if s.len() > 0 {
        pasting_fills_the_slot(rule, text, s.drop_last());
        assert(rule.pasted(text, s) =~= text + kept);
    } else {
        assert(rule.pasted(text, s) =~= text + kept);
    }
}

/// A character that is typed goes to the end of the slot where it is taken and fits, and
/// else nothing changes.
pub proof fn typing_adds_one_character(rule: SlotRule, text: Seq<char>, ch: char)
    ensures
        rule.typed(text, ch) != text ==> rule.typed(text, ch) == text + seq![ch] && text.len()
            < rule.max && rule.takes(ch),
        rule.takes(ch) && text.len() < rule.max ==> rule.typed(text, ch).len() == text.len() + 1
            && rule.typed(text, ch).last() == ch,
{
    assert(text.push(ch) =~= text + seq![ch]);
}

/// A slot is typed and pasted into at its end, with what it takes and as far as it has room.
pub proof fn slots_are_filled_at_their_end(
    s: &mut Vec<char>,
    rule: SlotRule,
    ch: char,
    r: bool,
    t: &mut Vec<char>,
    text: &str,
    changed: bool,
)
    requires
        call_ensures(type_into, (s, rule, ch), r),
        call_ensures(paste_into, (t, rule, text), changed),
        old(t)@.len() <= rule.max,
    ensures
        r ==> final(s)@ == old(s)@ + seq![ch],
        !r ==> final(s)@ == old(s)@,
        r <==> rule.takes(ch) && old(s)@.len() < rule.max,
        ({
            let taken = text@.filter(|c: char| rule.takes(c));
            let room = rule.max - old(t)@.len();
            &&& taken.len() <= room ==> final(t)@ == old(t)@ + taken
            &&& taken.len() > room ==> final(t)@ == old(t)@ + taken.take(room)
        }),
        changed <==> final(t)@ != old(t)@,
{
    assert(old(s)@.push(ch) =~= old(s)@ + seq![ch]);
    pasting_fills_the_slot(rule, old(t)@, text@);
    slot_takes_all_but_control_characters(rule, text@, ch);
}

} // verus!
