//! Renaming a tab in place.
use crate::fx::Fx;
use crate::fields::{printable, printable_chars, splice, spliced};
use crate::tabs::TabState;
use crate::text::{slot_cells, slot_width_of, text_of};
use vstd::prelude::*;

verus! {

/// The tab whose name is being edited and the name so far.
#[derive(Debug)]
pub struct TabRename {
    pub index: usize,
    pub name: Vec<char>,
}

impl TabState {
    /// The caret within the name.
    pub open spec fn rename_at(self) -> int {
        match self.rename {
            Some(r) if self.rename_caret > r.name@.len() => r.name@.len() as int,
            _ => self.rename_caret as int,
        }
    }

    /// Only what the rename field holds differs.
    pub open spec fn renamed_from(self, was: TabState) -> bool {
        &&& self == (TabState {
            rename: self.rename,
            rename_caret: self.rename_caret,
            rename_select_all: self.rename_select_all,
            ..was
        })
        &&& self.rename is Some <==> was.rename is Some
        &&& self.rename matches Some(r) ==> r.index == was.rename->0.index
    }
}

/// The number of characters of `s` before column `col`: a click in the left part of a
/// wide character goes before it.
pub open spec fn caret_at_column(s: Seq<char>, n: int, col: nat) -> bool {
    &&& 0 <= n <= s.len()
    &&& slot_cells(s.take(n)) <= col
    &&& n < s.len() ==> slot_cells(s.take(n + 1)) > col
}

impl TabState {
    /// `now` is this state once `text` was typed into the name.
    pub open spec fn rename_typed(self, now: TabState, typed: Seq<char>) -> bool {
        &&& now.renamed_from(self)
        &&& !now.rename_select_all
        &&& now.rename->0.name@ == (if self.rename_select_all {
            typed
        } else {
            spliced(self.rename->0.name@, self.rename_at(), self.rename_at(), typed)
        })
        &&& now.rename_caret == (if self.rename_select_all {
            0
        } else {
            self.rename_at()
        }) + typed.len()
    }

    /// `now` is this state after a backspace in the name.
    pub open spec fn rename_erased(self, now: TabState) -> bool {
        &&& now.renamed_from(self)
        &&& !now.rename_select_all
        &&& if self.rename_select_all {
            now.rename->0.name@.len() == 0 && now.rename_caret == 0
        } else if self.rename_at() > 0 {
            now.rename->0.name@ == self.rename->0.name@.remove(self.rename_at() - 1)
                && now.rename_caret == self.rename_at() - 1
        } else {
            now.rename == self.rename && now.rename_caret == self.rename_caret
        }
    }

    /// Where the caret goes by `delta` characters.
    pub open spec fn rename_moved(self, delta: i32) -> int {
        let len = self.rename->0.name@.len();
        if self.rename_select_all {
            if delta < 0 {
                0
            } else {
                len as int
            }
        } else if self.rename_at() + delta < 0 {
            0
        } else if self.rename_at() + delta > len {
            len as int
        } else {
            self.rename_at() + delta
        }
    }

    fn insert_name(&mut self, typed: &Vec<char>)
        requires
            old(self).rename matches Some(r) && r.name@.len() + typed@.len() <= usize::MAX,
        ensures
            old(self).rename_typed(*final(self), typed@),
    {
        let caret: usize = self.rename_caret;
        let select_all: bool = self.rename_select_all;
        if let Some(mut field) = self.rename.take() {
            if select_all {
                field.name.clear();
            }
            let caret: usize = if select_all {
                0
            } else if caret > field.name.len() {
                field.name.len()
            } else {
                caret
            };
            splice(&mut field.name, caret, caret, typed);
            proof {
                if select_all {
                    assert(field.name@ =~= typed@);
                }
            }
            self.rename_select_all = false;
            self.rename_caret = caret + typed.len();
            self.rename = Some(field);
        }
    }

    fn erase_name(&mut self)
        requires
            old(self).rename is Some,
        ensures
            old(self).rename_erased(*final(self)),
    {
        let caret: usize = self.rename_caret;
        if let Some(mut field) = self.rename.take() {
            if self.rename_select_all {
                field.name.clear();
                self.rename_select_all = false;
                self.rename_caret = 0;
            } else if caret > 0 {
                let caret: usize = if caret > field.name.len() {
                    field.name.len()
                } else {
                    caret
                };
                if caret > 0 {
                    field.name.remove(caret - 1);
                    self.rename_caret = caret - 1;
                }
            }
            self.rename = Some(field);
        }
    }

    fn place_name_caret(&mut self, caret: usize, select_all: bool)
        ensures
            *final(self) == (TabState {
                rename_caret: caret,
                rename_select_all: select_all,
                ..*old(self)
            }),
    {
        self.rename_caret = caret;
        self.rename_select_all = select_all;
    }
}

impl TabState {
    /// Types into the name; a select-all is replaced. Control characters are left out.
    pub fn tab_rename_insert(&mut self, text: &str, fx: &mut Fx)
        requires
            old(self).rename matches Some(r) ==> r.name@.len() + text@.len() <= usize::MAX,
        ensures
            printable(text@).len() == 0 || old(self).rename is None ==> *final(self)
                == *old(self) && *final(fx) == *old(fx),
            printable(text@).len() > 0 && old(self).rename is Some ==> {
                &&& *final(fx) == old(fx).marked()
                &&& old(self).rename_typed(*final(self), printable(text@))
            },
    {
        let typed = printable_chars(text);
        proof {
            lemma_printable_len(text@);
        }
        if typed.len() == 0 || self.rename.is_none() {
            return;
        }
        self.insert_name(&typed);
        fx.mark();
    }

    /// Erases the character before the caret, or everything where all is selected.
    pub fn tab_rename_backspace(&mut self, fx: &mut Fx)
        ensures
            old(self).rename is None ==> *final(self) == *old(self) && *final(fx) == *old(fx),
            old(self).rename is Some ==> {
                &&& *final(fx) == old(fx).marked()
                &&& old(self).rename_erased(*final(self))
            },
    {
        if self.rename.is_none() {
            return;
        }
        self.erase_name();
        fx.mark();
    }

    /// Selects the whole name; an empty one selects nothing.
    pub fn tab_rename_select_all(&mut self, fx: &mut Fx)
        ensures
            old(self).rename is None ==> *final(self) == *old(self) && *final(fx) == *old(fx),
            old(self).rename matches Some(r) ==> *final(self) == (TabState {
                        rename_select_all: r.name@.len() > 0,
                        rename_caret: r.name@.len() as usize,
                        ..*old(self)
                    }) && *final(fx) == old(fx).marked(),
    {
        if let Some(field) = &self.rename {
            let len: usize = field.name.len();
            self.place_name_caret(len, len > 0);
            fx.mark();
        }
    }

    /// The name where all of it is selected.
    pub fn tab_rename_selected_text(&self) -> (r: Option<String>)
        ensures
            r is Some <==> self.rename_select_all && self.rename is Some,
            r matches Some(s) ==> s@ == self.rename->0.name@,
    {
        if !self.rename_select_all {
            return None;
        }
        match &self.rename {
            Some(field) => Some(text_of(&field.name)),
            None => None,
        }
    }

    /// Moves the caret by `delta` characters. A select-all collapses to the matching end
    /// without moving further.
    pub fn tab_rename_move_caret(&mut self, delta: i32, fx: &mut Fx)
        ensures
            old(self).rename is None ==> *final(self) == *old(self) && *final(fx) == *old(fx),
            old(self).rename matches Some(r) ==> *final(self) == (TabState {
                        rename_select_all: false,
                        rename_caret: old(self).rename_moved(delta) as usize,
                        ..*old(self)
                    }) && *final(fx) == old(fx).marked(),
    {
        if let Some(field) = &self.rename {
            let len: usize = field.name.len();
            let to: usize = if self.rename_select_all {
                if delta < 0 {
                    0
                } else {
                    len
                }
            } else {
                let caret: usize = if self.rename_caret > len {
                    len
                } else {
                    self.rename_caret
                };
                if delta < 0 {
                    caret.saturating_sub((-(delta as i64)) as usize)
                } else {
                    let step: usize = delta as usize;
                    if step <= len - caret {
                        caret + step
                    } else {
                        len
                    }
                }
            };
            self.place_name_caret(to, false);
            fx.mark();
        }
    }

    /// Moves the caret to the start or the end.
    pub fn tab_rename_caret_edge(&mut self, end: bool, fx: &mut Fx)
        ensures
            old(self).rename is None ==> *final(self) == *old(self) && *final(fx) == *old(fx),
            old(self).rename matches Some(r) ==> *final(self) == (TabState {
                        rename_select_all: false,
                        rename_caret: if end {
                            r.name@.len() as usize
                        } else {
                            0
                        },
                        ..*old(self)
                    }) && *final(fx) == old(fx).marked(),
    {
        if let Some(field) = &self.rename {
            let to: usize = if end {
                field.name.len()
            } else {
                0
            };
            self.place_name_caret(to, false);
            fx.mark();
        }
    }

    /// Puts the caret where the pointer is: `column` counts cells from the first glyph.
    pub fn tab_rename_click(&mut self, column: usize, fx: &mut Fx)
        ensures
            old(self).rename is None ==> *final(self) == *old(self) && *final(fx) == *old(fx),
            old(self).rename matches Some(r) ==> {
                &&& *final(self) == (TabState {
                        rename_select_all: false,
                        rename_caret: final(self).rename_caret,
                        ..*old(self)
                    })
                &&& *final(fx) == old(fx).marked()
                &&& caret_at_column(
                    r.name@,
                    final(self).rename_caret as int,
                    column as nat,
                )
            },
    {
        if let Some(field) = &self.rename {
            let caret: usize = caret_for_column(&field.name, column);
            self.place_name_caret(caret, false);
            fx.mark();
        }
    }
}

/// The caret position for a click `column` cells right of the first character.
pub fn caret_for_column(name: &Vec<char>, column: usize) -> (caret: usize)
    ensures
        caret_at_column(name@, caret as int, column as nat),
{
    let mut rest: usize = column;
    let mut caret: usize = 0;
    proof {
        assert(name@.take(0) =~= Seq::<char>::empty());
    }
    while caret < name.len()
        invariant
            caret <= name@.len(),
            slot_cells(name@.take(caret as int)) + rest == column,
        ensures
            caret_at_column(name@, caret as int, column as nat),
        decreases name@.len() - caret,
    {
        let w: usize = slot_width_of(name[caret]);
        proof {
            assert(name@.take(caret + 1).drop_last() =~= name@.take(caret as int));
        }
        if rest < w {
            break;
        }
        rest -= w;
        caret += 1;
    }
    caret
}

pub proof fn lemma_printable_len(s: Seq<char>)
    ensures
        printable(s).len() <= s.len(),
    decreases s.len(),
{
    if s.len() > 0 {
        lemma_printable_len(s.drop_last());
    }
}

/// Typing into the name of a tab puts the text at the caret and the caret behind it; a
/// selected name is replaced.
pub proof fn typed_name_stands_at_the_caret(t: TabState, now: TabState, typed: Seq<char>)
    requires
        t.rename is Some,
        t.rename_typed(now, typed),
    ensures
        ({
            let old_name = t.rename->0.name@;
            let name = now.rename->0.name@;
            let caret = now.rename_caret as int;
            &&& now.rename is Some && now.rename->0.index == t.rename->0.index
            &&& name.len() == typed.len() + (if t.rename_select_all {
                0
            } else {
                old_name.len()
            })
            &&& typed.len() <= caret <= name.len()
            &&& name.subrange(caret - typed.len(), caret) == typed
            &&& !t.rename_select_all ==> name.take(caret - typed.len()) == old_name.take(
                caret - typed.len(),
            ) && name.skip(caret) == old_name.skip(caret - typed.len())
            &&& now.labels == t.labels && now.colors == t.colors && now.active == t.active
        }),
{
    let name = now.rename->0.name@;
    let old_name = t.rename->0.name@;
    let caret = now.rename_caret as int;
    assert(name.subrange(caret - typed.len(), caret) =~= typed);
    if !t.rename_select_all {
        assert(name.take(caret - typed.len()) =~= old_name.take(caret - typed.len()));
        assert(name.skip(caret) =~= old_name.skip(caret - typed.len()));
    }
}

/// Erasing takes the character before the caret, or a whole selected name, and nothing at
/// the front of the name.
pub proof fn erasing_takes_one_character(t: TabState, now: TabState)
    requires
        t.rename is Some,
        t.rename_erased(now),
    ensures
        ({
            let old_name = t.rename->0.name@;
            let name = now.rename->0.name@;
            let at = t.rename_at();
            &&& 0 <= at <= old_name.len()
            &&& t.rename_select_all ==> name.len() == 0 && now.rename_caret == 0
            &&& !t.rename_select_all && at > 0 ==> name == old_name.take(at - 1) + old_name.skip(at)
                && now.rename_caret == at - 1
            &&& !t.rename_select_all && at == 0 ==> name == old_name
        }),
{
    let at = t.rename_at();
    let old_name = t.rename->0.name@;
    if !t.rename_select_all && at > 0 {
        assert(old_name.remove(at - 1) =~= old_name.take(at - 1) + old_name.skip(at));
    }
}

/// The caret moves by what it is told and stays in the name; a selected name puts it at the
/// side it moves to.
pub proof fn name_caret_stays_in_the_name(t: TabState, delta: i32)
    requires
        t.rename is Some,
    ensures
        ({
            let len = t.rename->0.name@.len();
            let to = t.rename_moved(delta);
            &&& 0 <= to <= len
            &&& t.rename_select_all && delta < 0 ==> to == 0
            &&& t.rename_select_all && delta >= 0 ==> to == len
            &&& !t.rename_select_all && 0 <= t.rename_at() + delta <= len ==> to == t.rename_at()
                + delta
            &&& !t.rename_select_all && t.rename_at() + delta < 0 ==> to == 0
            &&& !t.rename_select_all && t.rename_at() + delta > len ==> to == len
        }),
{
}

proof fn lemma_slot_cells_grow(s: Seq<char>, n: int, m: int)
    requires
        0 <= n <= m <= s.len(),
    ensures
        slot_cells(s.take(n)) + (m - n) <= slot_cells(s.take(m)),
    decreases m - n,
{
    if n < m {
        lemma_slot_cells_grow(s, n, m - 1);
        assert(s.take(m).drop_last() =~= s.take(m - 1));
    }
}

/// A column has one place for the caret: the last one that is not behind it.
pub proof fn column_has_one_caret(s: Seq<char>, n: int, m: int, col: nat)
    requires
        caret_at_column(s, n, col),
    ensures
        caret_at_column(s, m, col) ==> m == n,
        0 <= m <= s.len() && slot_cells(s.take(m)) <= col ==> m <= n,
{
    if 0 <= m <= s.len() {
        if m > n {
            lemma_slot_cells_grow(s, n + 1, m);
        } else if m < n {
            lemma_slot_cells_grow(s, m + 1, n);
        }
    }
}

/// A name is edited only while one is; typing takes what can be shown, and moving the caret
/// keeps the name.
pub proof fn name_is_edited_while_one_is(
    s: &mut TabState,
    text: &str,
    fx: &mut Fx,
    t: &mut TabState,
    delta: i32,
    fx2: &mut Fx,
    u: &mut TabState,
    end: bool,
    fx3: &mut Fx,
)
    requires
        call_ensures(TabState::tab_rename_insert, (s, text, fx), ()),
        call_ensures(TabState::tab_rename_move_caret, (t, delta, fx2), ()),
        call_ensures(TabState::tab_rename_caret_edge, (u, end, fx3), ()),
    ensures
        old(s).rename is None ==> *final(s) == *old(s),
        printable(text@).len() == 0 ==> *final(s) == *old(s),
        old(s).rename is Some && printable(text@).len() > 0 && old(s).rename_select_all
            ==> final(s).rename->0.name@ == printable(text@),
        final(s).labels == old(s).labels && final(t).labels == old(t).labels && final(u).labels
            == old(u).labels,
        final(t).rename == old(t).rename && final(u).rename == old(u).rename,
        old(t).rename is None ==> *final(t) == *old(t),
        old(t).rename matches Some(r) ==> !final(t).rename_select_all && (r.name@.len()
            <= usize::MAX ==> final(t).rename_caret <= r.name@.len()),
        old(u).rename matches Some(r) ==> (r.name@.len() <= usize::MAX ==> final(u).rename_caret
            == (if end {
            r.name@.len()
        } else {
            0
        })),
{
}

/// The whole of a name is selected, and that is what is copied.
pub proof fn whole_name_is_selected(
    s: &mut TabState,
    fx: &mut Fx,
    r: Option<String>,
)
    requires
        call_ensures(TabState::tab_rename_select_all, (s, fx), ()),
        call_ensures(TabState::tab_rename_selected_text, (&*final(s),), r),
        old(s).rename is Some,
    ensures
        final(s).rename == old(s).rename,
        old(s).rename->0.name@.len() > 0 ==> r is Some && (r->0)@ == old(s).rename->0.name@,
        old(s).rename->0.name@.len() == 0 ==> r is None,
{
}

/// A click puts the caret before the character in its column.
pub proof fn click_puts_the_caret(s: &mut TabState, column: usize, fx: &mut Fx, m: int)
    requires
        call_ensures(TabState::tab_rename_click, (s, column, fx), ()),
        old(s).rename is Some,
    ensures
        final(s).rename == old(s).rename && !final(s).rename_select_all,
        ({
            let name = old(s).rename->0.name@;
            let at = final(s).rename_caret as int;
            &&& 0 <= at <= name.len()
            &&& slot_cells(name.take(at)) <= column
            &&& 0 <= m <= name.len() && slot_cells(name.take(m)) <= column ==> m <= at
        }),
{
    let name = old(s).rename->0.name@;
    column_has_one_caret(name, final(s).rename_caret as int, m, column as nat);
}

} // verus!
