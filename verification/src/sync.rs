//! Settings sync: its fields and the state of a push or pull.
use crate::fx::Fx;
use crate::slots::{copy_chars, paste_into, set_slot, slot_texts, type_into, SlotRule};
use crate::text::{chars_of, text_of};
use crate::words::{trim_chars, trimmed};
use vstd::prelude::*;

verus! {

/// Longest value of a sync field, in characters.
pub const SYNC_FIELD_MAX: usize = 256;

/// The sync form: address, user name, password and passphrase.
#[derive(Debug)]
pub struct SyncState {
    pub inputs: Vec<Vec<char>>,
    pub auto_pull: bool,
    pub password_set: bool,
    pub passphrase_set: bool,
    pub focus: Option<usize>,
    pub status: Option<(String, bool)>,
    pub busy: bool,
}

/// What leaving a field asks for.
#[derive(Debug)]
pub enum SyncCommit {
    Nothing,
    SaveConfig { url: String, username: String, auto_pull: bool },
    StorePassword { username: String, secret: String },
    StorePassphrase { username: String, secret: String },
}

/// How a push or pull starts.
#[derive(Debug)]
pub enum SyncStart {
    Busy,
    Leave(SyncCommit),
    Started,
}

/// White space belongs into the two secrets only.
pub open spec fn sync_rule(index: usize) -> SlotRule {
    SlotRule { max: SYNC_FIELD_MAX, spaces: index >= 2 }
}

impl SyncState {
    pub open spec fn wf(self) -> bool {
        &&& self.inputs@.len() == 4
        &&& self.focus matches Some(i) ==> i < 4
    }

    /// `now` is this state with `text` in the field `i`.
    pub open spec fn field_set(self, now: SyncState, i: usize, text: Seq<char>) -> bool {
        &&& now == (SyncState { inputs: now.inputs, ..self })
        &&& slot_texts(now.inputs@) == slot_texts(self.inputs@).update(i as int, text)
    }

    fn set_field(&mut self, index: usize, text: Vec<char>)
        requires
            old(self).wf(),
            index < 4,
        ensures
            final(self).wf(),
            old(self).field_set(*final(self), index, text@),
    {
        set_slot(&mut self.inputs, index, text);
    }

    /// Takes over the stored settings. Secrets are never read back.
    pub fn load_sync_state(
        &mut self,
        url: &str,
        username: &str,
        auto_pull: bool,
        password_set: bool,
        passphrase_set: bool,
    )
        ensures
            final(self).wf(),
            *final(self) == (SyncState {
                inputs: final(self).inputs,
                auto_pull,
                password_set,
                passphrase_set,
                focus: None,
                ..*old(self)
            }),
            slot_texts(final(self).inputs@) == seq![
                url@,
                username@,
                Seq::<char>::empty(),
                Seq::<char>::empty(),
            ],
    {
        let mut inputs: Vec<Vec<char>> = Vec::new();
        inputs.push(chars_of(url));
        inputs.push(chars_of(username));
        inputs.push(Vec::new());
        inputs.push(Vec::new());
        proof {
            assert(slot_texts(inputs@) =~= seq![
                url@,
                username@,
                Seq::<char>::empty(),
                Seq::<char>::empty(),
            ]);
        }
        self.inputs = inputs;
        self.auto_pull = auto_pull;
        self.password_set = password_set;
        self.passphrase_set = passphrase_set;
        self.focus = None;
    }

    /// Focuses a field, leaving the one that had the focus.
    pub fn focus_sync_field(&mut self, index: usize, fx: &mut Fx) -> (c: SyncCommit)
        requires
            old(self).wf(),
        ensures
            final(self).wf(),
            old(self).focus == Some(index) ==> *final(self) == *old(self) && *final(fx) == *old(fx)
                && c is Nothing,
            old(self).focus != Some(index) ==> {
                &&& *final(fx) == old(fx).marked()
                &&& final(self).focus == Some(
                    if index < 3 {
                        index
                    } else {
                        3
                    },
                )
                &&& old(self).field_left(SyncState { focus: None, ..*final(self) }, c)
            },
    {
        if let Some(focus) = self.focus {
            if focus == index {
                return SyncCommit::Nothing;
            }
        }
        let c = self.commit_sync_field(fx);
        self.focus = Some(
            if index < 3 {
                index
            } else {
                3
            },
        );
        fx.mark();
        c
    }

    pub fn sync_field_push(&mut self, ch: char, fx: &mut Fx)
        requires
            old(self).wf(),
        ensures
            final(self).wf(),
            ({
                let taken = old(self).focus matches Some(i) && sync_rule(i).takes(ch)
                    && old(self).inputs@[i as int]@.len() < SYNC_FIELD_MAX;
                let i = old(self).focus->0;
                &&& taken ==> *final(fx) == old(fx).marked() && old(self).field_set(
                    *final(self),
                    i,
                    old(self).inputs@[i as int]@.push(ch),
                )
                &&& !taken ==> *final(self) == *old(self) && *final(fx) == *old(fx)
            }),
    {
        if let Some(index) = self.focus {
            let mut field = copy_chars(&self.inputs[index]);
            let rule = SlotRule { max: SYNC_FIELD_MAX, spaces: index >= 2 };
            if type_into(&mut field, rule, ch) {
                self.set_field(index, field);
                fx.mark();
            }
        }
    }

    pub fn sync_field_paste(&mut self, text: &str, fx: &mut Fx)
        requires
            old(self).wf(),
        ensures
            final(self).wf(),
            old(self).focus is None ==> *final(self) == *old(self) && *final(fx) == *old(fx),
            old(self).focus matches Some(i) ==> {
                let before = old(self).inputs@[i as int]@;
                let after = sync_rule(i).pasted(before, text@);
                &&& old(self).field_set(*final(self), i, after)
                &&& *final(fx) == (if after == before {
                    *old(fx)
                } else {
                    old(fx).marked()
                })
            },
    {
        if let Some(index) = self.focus {
            let mut field = copy_chars(&self.inputs[index]);
            let rule = SlotRule { max: SYNC_FIELD_MAX, spaces: index >= 2 };
            let changed: bool = paste_into(&mut field, rule, text);
            self.set_field(index, field);
            if changed {
                fx.mark();
            }
        }
    }

    pub fn sync_field_backspace(&mut self, fx: &mut Fx)
        requires
            old(self).wf(),
        ensures
            final(self).wf(),
            match old(self).focus {
                Some(i) if old(self).inputs@[i as int]@.len() > 0 => {
                    &&& *final(fx) == old(fx).marked()
                    &&& old(self).field_set(
                        *final(self),
                        i,
                        old(self).inputs@[i as int]@.drop_last(),
                    )
                },
                _ => *final(self) == *old(self) && *final(fx) == *old(fx),
            },
    {
        if let Some(index) = self.focus {
            if self.inputs[index].len() > 0 {
                let mut field = copy_chars(&self.inputs[index]);
                field.pop();
                self.set_field(index, field);
                fx.mark();
            }
        }
    }

    /// `now` is this state once the focused field was left, and `c` what that asks for.
    pub open spec fn field_left(self, now: SyncState, c: SyncCommit) -> bool {
        match self.focus {
            None => now == self && c is Nothing,
            Some(i) => {
                let value = self.inputs@[i as int]@;
                &&& now == (SyncState { focus: None, inputs: now.inputs, ..self })
                &&& i < 2 ==> {
                    &&& now.inputs == self.inputs
                    &&& c matches SyncCommit::SaveConfig { url, username, auto_pull } && url@
                        == trimmed(self.inputs@[0]@) && username@ == trimmed(self.inputs@[1]@)
                        && auto_pull == self.auto_pull
                }
                &&& i >= 2 ==> {
                    &&& slot_texts(now.inputs@) == slot_texts(self.inputs@).update(
                        i as int,
                        Seq::<char>::empty(),
                    )
                    &&& trimmed(value).len() == 0 ==> c is Nothing
                    &&& trimmed(value).len() > 0
                        && i == 2 ==> (c matches SyncCommit::StorePassword {
                        username,
                        secret,
                    } && secret@ == value && username@ == trimmed(self.inputs@[1]@))
                    &&& trimmed(value).len() > 0
                        && i == 3 ==> (c matches SyncCommit::StorePassphrase {
                        username,
                        secret,
                    } && secret@ == value && username@ == trimmed(self.inputs@[1]@))
                }
            },
        }
    }

    /// Takes the focus off the field and says what its value asks for.
    pub fn commit_sync_field(&mut self, fx: &mut Fx) -> (c: SyncCommit)
        requires
            old(self).wf(),
        ensures
            final(self).wf(),
            old(self).field_left(*final(self), c),
            *final(fx) == (if old(self).focus is Some {
                old(fx).marked()
            } else {
                *old(fx)
            }),
    {
        let index: usize = match self.focus {
            Some(i) => i,
            None => {
                return SyncCommit::Nothing;
            },
        };
        self.focus = None;
        fx.mark();
        if index < 2 {
            return SyncCommit::SaveConfig {
                url: trim_chars(&self.inputs[0]),
                username: trim_chars(&self.inputs[1]),
                auto_pull: self.auto_pull,
            };
        }
        let secret = text_of(&self.inputs[index]);
        let bare = trim_chars(&self.inputs[index]);
        let username = trim_chars(&self.inputs[1]);
        let empty: Vec<char> = Vec::new();
        proof {
            assert(empty@ =~= Seq::<char>::empty());
        }
        self.set_field(index, empty);
        if bare.as_str().is_empty() {
            SyncCommit::Nothing
        } else if index == 2 {
            SyncCommit::StorePassword { username, secret }
        } else {
            SyncCommit::StorePassphrase { username, secret }
        }
    }

    /// `now` is this state once the page was left, which leaves the focused field.
    #[verifier::opaque]
    pub open spec fn page_left(self, now: SyncState, c: SyncCommit) -> bool {
        self.field_left(now, c)
    }

    /// What leaving the page asks for.
    pub open spec fn page_left_fx(self, fx: Fx) -> Fx {
        if self.focus is Some {
            fx.marked()
        } else {
            fx
        }
    }

    /// Leaves the page. The result is what leaving the focused field asks for.
    pub fn leave_page(&mut self, fx: &mut Fx) -> (c: SyncCommit)
        requires
            old(self).wf(),
        ensures
            final(self).wf(),
            old(self).page_left(*final(self), c),
            *final(fx) == old(self).page_left_fx(*old(fx)),
    {
        proof {
            reveal(SyncState::page_left);
        }
        self.commit_sync_field(fx)
    }

    /// Takes over how storing a secret went: the password where `password` is set, else
    /// the passphrase.
    pub fn sync_secret_stored(&mut self, password: bool, result: Result<(), String>)
        ensures
            match result {
                Err(e) => *final(self) == (SyncState { status: Some((e, true)), ..*old(self) }),
                Ok(_) => {
                    &&& *final(self) == (SyncState {
                        password_set: old(self).password_set || password,
                        passphrase_set: old(self).passphrase_set || !password,
                        status: final(self).status,
                        ..*old(self)
                    })
                    &&& final(self).status matches Some((m, e)) && !e && m@ == (if password {
                        "WebDAV 密码已保存到凭据管理器"@
                    } else {
                        "同步口令已保存到凭据管理器"@
                    })
                },
            },
    {
        match result {
            Err(e) => {
                self.status = Some((e, true));
            },
            Ok(_) => {
                if password {
                    self.password_set = true;
                    self.status = Some(("WebDAV 密码已保存到凭据管理器".to_owned(), false));
                } else {
                    self.passphrase_set = true;
                    self.status = Some(("同步口令已保存到凭据管理器".to_owned(), false));
                }
            },
        }
    }

    /// Takes over that the settings could not be stored.
    pub fn sync_config_failed(&mut self, error: String)
        ensures
            *final(self) == (SyncState { status: Some((error, true)), ..*old(self) }),
    {
        self.status = Some((error, true));
    }

    /// Drops what was typed into the focused field: the address and the user name show
    /// their stored values again, a secret is cleared.
    pub fn cancel_sync_field(&mut self, stored_url: &str, stored_username: &str, fx: &mut Fx)
        requires
            old(self).wf(),
        ensures
            final(self).wf(),
            old(self).focus is None ==> *final(self) == *old(self) && *final(fx) == *old(fx),
            old(self).focus matches Some(i) ==> {
                &&& *final(fx) == old(fx).marked()
                &&& (SyncState { focus: None, ..*old(self) }).field_set(
                    *final(self),
                    i,
                    if i == 0 {
                        stored_url@
                    } else if i == 1 {
                        stored_username@
                    } else {
                        Seq::<char>::empty()
                    },
                )
            },
    {
        if let Some(index) = self.focus {
            self.focus = None;
            let text: Vec<char> = if index == 0 {
                chars_of(stored_url)
            } else if index == 1 {
                chars_of(stored_username)
            } else {
                Vec::new()
            };
            proof {
                if index >= 2 {
                    assert(text@ =~= Seq::<char>::empty());
                }
            }
            self.set_field(index, text);
            fx.mark();
        }
    }

    /// Switches pulling at the start; the result is what has to be stored.
    pub fn toggle_sync_auto_pull(&mut self, fx: &mut Fx) -> (c: SyncCommit)
        requires
            old(self).wf(),
        ensures
            *final(self) == (SyncState { auto_pull: !old(self).auto_pull, ..*old(self) }),
            c matches SyncCommit::SaveConfig { url, username, auto_pull } && url@ == trimmed(
                old(self).inputs@[0]@,
            ) && username@ == trimmed(old(self).inputs@[1]@) && auto_pull == !old(self).auto_pull,
            *final(fx) == old(fx).marked(),
    {
        self.auto_pull = !self.auto_pull;
        fx.mark();
        SyncCommit::SaveConfig {
            url: trim_chars(&self.inputs[0]),
            username: trim_chars(&self.inputs[1]),
            auto_pull: self.auto_pull,
        }
    }

    /// Starts a push or pull. Only one runs at a time, and a focused field is left first:
    /// what that asks for has to be done before the start is tried again.
    pub fn begin_sync_action(&mut self, fx: &mut Fx) -> (r: SyncStart)
        requires
            old(self).wf(),
        ensures
            final(self).wf(),
            old(self).busy ==> r is Busy && *final(self) == *old(self) && *final(fx) == *old(fx),
            !old(self).busy && old(self).focus is Some ==> {
                &&& r matches SyncStart::Leave(c) && old(self).field_left(*final(self), c)
                &&& *final(fx) == old(fx).marked()
            },
            !old(self).busy && old(self).focus is None ==> {
                &&& r is Started
                &&& *final(fx) == old(fx).marked()
                &&& *final(self) == (SyncState {
                    busy: true,
                    status: final(self).status,
                    ..*old(self)
                })
                &&& final(self).status matches Some((m, e)) && m@ == "同步中…"@ && !e
            },
    {
        if self.busy {
            return SyncStart::Busy;
        }
        if self.focus.is_some() {
            return SyncStart::Leave(self.commit_sync_field(fx));
        }
        self.busy = true;
        self.status = Some(("同步中…".to_owned(), false));
        fx.mark();
        SyncStart::Started
    }

    /// Takes over the end of a push or pull.
    pub fn sync_action_done(
        &mut self,
        message: String,
        error: bool,
        password_set: bool,
        passphrase_set: bool,
        fx: &mut Fx,
    )
        ensures
            *final(self) == (SyncState {
                busy: false,
                status: Some((message, error)),
                password_set,
                passphrase_set,
                ..*old(self)
            }),
            *final(fx) == old(fx).touched(),
    {
        self.busy = false;
        self.status = Some((message, error));
        self.password_set = password_set;
        self.passphrase_set = passphrase_set;
        fx.touch();
    }
}

/// Leaving a secret field leaves no secret behind in it.
pub proof fn left_secret_is_gone(was: SyncState, now: SyncState, c: SyncCommit, i: usize)
    requires
        was.wf(),
        was.focus == Some(i),
        i >= 2,
        was.field_left(now, c),
    ensures
        now.inputs@[i as int]@.len() == 0,
{
    assert(slot_texts(now.inputs@).len() == slot_texts(was.inputs@).len());
    assert(slot_texts(now.inputs@)[i as int] == now.inputs@[i as int]@);
}

/// Leaving a field hands over what it was for: the address and the user without white space
/// at their ends, or a secret as it was typed, for that user. An empty secret is none.
pub proof fn left_field_is_handed_over(was: SyncState, now: SyncState, c: SyncCommit)
    requires
        was.wf(),
        was.field_left(now, c),
    ensures
        now.focus is None,
        now.auto_pull == was.auto_pull && now.status == was.status && now.busy == was.busy,
        was.focus is None ==> c is Nothing && now.inputs == was.inputs,
        c matches SyncCommit::SaveConfig { url, username, auto_pull } ==> url@ == trimmed(
            was.inputs@[0]@,
        ) && username@ == trimmed(was.inputs@[1]@) && auto_pull == was.auto_pull,
        c matches SyncCommit::StorePassword { username, secret } ==> was.focus == Some(2usize)
            && secret@ == was.inputs@[2]@ && username@ == trimmed(was.inputs@[1]@),
        c matches SyncCommit::StorePassphrase { username, secret } ==> was.focus == Some(3usize)
            && secret@ == was.inputs@[3]@ && username@ == trimmed(was.inputs@[1]@),
        was.focus == Some(0usize) || was.focus == Some(1usize) ==> c is SaveConfig,
        was.focus == Some(2usize) && trimmed(was.inputs@[2]@).len() > 0 ==> c is StorePassword,
        was.focus == Some(3usize) && trimmed(was.inputs@[3]@).len() > 0 ==> c is StorePassphrase,
        forall|i: usize| i < 2 ==> !(#[trigger] sync_rule(i)).spaces && sync_rule(i).max == 256,
        sync_rule(2).spaces && sync_rule(3).spaces,
{
}

/// A field that is set shows its text, and the others keep theirs.
pub proof fn set_field_leaves_the_others(
    s: SyncState,
    now: SyncState,
    i: usize,
    j: int,
    text: Seq<char>,
)
    requires
        s.wf(),
        s.field_set(now, i, text),
        i < 4,
        0 <= j < 4,
    ensures
        now.inputs@[i as int]@ == text,
        j != i ==> now.inputs@[j]@ == s.inputs@[j]@,
        now.focus == s.focus && now.status == s.status,
{
    let t = slot_texts(now.inputs@);
    let u = slot_texts(s.inputs@);
    assert(t.len() == 4);
    assert(t[i as int] == now.inputs@[i as int]@ && t[j] == now.inputs@[j]@ && u[j]
        == s.inputs@[j]@);
}

/// Typing goes to the end of the field with the keyboard, and erasing takes its last
/// character; the other fields stay.
pub proof fn typing_fills_the_focused_field(
    s: &mut SyncState,
    ch: char,
    fx: &mut Fx,
    t: &mut SyncState,
    fx2: &mut Fx,
    j: int,
)
    requires
        call_ensures(SyncState::sync_field_push, (s, ch, fx), ()),
        call_ensures(SyncState::sync_field_backspace, (t, fx2), ()),
        old(s).wf(),
        old(t).wf(),
        0 <= j < 4,
    ensures
        old(s).focus is None ==> *final(s) == *old(s),
        old(s).focus matches Some(i) ==> {
            let v = old(s).inputs@[i as int]@;
            let taken = sync_rule(i).takes(ch) && v.len() < 256;
            &&& taken ==> final(s).inputs@[i as int]@ == v + seq![ch]
            &&& !taken ==> *final(s) == *old(s)
            &&& j != i ==> final(s).inputs@[j]@ == old(s).inputs@[j]@
        },
        old(t).focus is None ==> *final(t) == *old(t),
        old(t).focus matches Some(i) ==> {
            let v = old(t).inputs@[i as int]@;
            &&& v.len() > 0 ==> final(t).inputs@[i as int]@ == v.take(v.len() - 1)
            &&& v.len() == 0 ==> *final(t) == *old(t)
            &&& j != i ==> final(t).inputs@[j]@ == old(t).inputs@[j]@
        },
        final(s).auto_pull == old(s).auto_pull && final(s).focus == old(s).focus,
{
    if old(s).focus is Some {
        let i = old(s).focus->0;
        let v = old(s).inputs@[i as int]@;
        assert(v.push(ch) =~= v + seq![ch]);
        if sync_rule(i).takes(ch) && v.len() < 256 {
            set_field_leaves_the_others(*old(s), *final(s), i, j, v.push(ch));
        }
    }
    if old(t).focus is Some {
        let i = old(t).focus->0;
        let v = old(t).inputs@[i as int]@;
        if v.len() > 0 {
            assert(v.drop_last() =~= v.take(v.len() - 1));
            set_field_leaves_the_others(*old(t), *final(t), i, j, v.drop_last());
        }
    }
}

/// Escape puts the stored address and user back and forgets a secret that was typed.
pub proof fn escape_puts_stored_values_back(
    s: &mut SyncState,
    url: &str,
    username: &str,
    fx: &mut Fx,
)
    requires
        call_ensures(SyncState::cancel_sync_field, (s, url, username, fx), ()),
        old(s).wf(),
    ensures
        final(s).focus is None,
        old(s).focus == Some(0usize) ==> final(s).inputs@[0]@ == url@,
        old(s).focus == Some(1usize) ==> final(s).inputs@[1]@ == username@,
        old(s).focus == Some(2usize) ==> final(s).inputs@[2]@.len() == 0,
        old(s).focus == Some(3usize) ==> final(s).inputs@[3]@.len() == 0,
        old(s).focus is None ==> *final(s) == *old(s),
{
    if old(s).focus is Some {
        let i = old(s).focus->0;
        let base = SyncState { focus: None, ..*old(s) };
        let text = if i == 0 {
            url@
        } else if i == 1 {
            username@
        } else {
            Seq::<char>::empty()
        };
        set_field_leaves_the_others(base, *final(s), i, 0, text);
    }
}

/// A sync runs once at a time, and not while a field has the keyboard, which is left first.
/// When it is done, how it went is shown.
pub proof fn one_sync_runs_at_a_time(
    s: &mut SyncState,
    fx: &mut Fx,
    r: SyncStart,
    t: &mut SyncState,
    message: String,
    error: bool,
    password_set: bool,
    passphrase_set: bool,
    fx2: &mut Fx,
)
    requires
        call_ensures(SyncState::begin_sync_action, (s, fx), r),
        call_ensures(
            SyncState::sync_action_done,
            (t, message, error, password_set, passphrase_set, fx2),
            (),
        ),
        old(s).wf(),
    ensures
        r is Started <==> !old(s).busy && old(s).focus is None,
        r is Started ==> final(s).busy && final(s).inputs == old(s).inputs,
        old(s).busy ==> r is Busy && *final(s) == *old(s),
        r is Leave ==> final(s).focus is None && !final(s).busy,
        !final(t).busy && final(t).status == Some((message, error)) && final(t).password_set
            == password_set && final(t).passphrase_set == passphrase_set && final(t).inputs
            == old(t).inputs,
{
    if !old(s).busy && old(s).focus is Some {
        let c = match r {
            SyncStart::Leave(c) => c,
            _ => SyncCommit::Nothing,
        };
        left_field_is_handed_over(*old(s), *final(s), c);
    }
}

/// Pulling on its own is turned over and written down with the address and the user.
pub proof fn automatic_pull_is_written_down(s: &mut SyncState, fx: &mut Fx, c: SyncCommit)
    requires
        call_ensures(SyncState::toggle_sync_auto_pull, (s, fx), c),
    ensures
        final(s).auto_pull != old(s).auto_pull,
        final(s).inputs == old(s).inputs && final(s).focus == old(s).focus,
        c matches SyncCommit::SaveConfig { url, username, auto_pull } && auto_pull
            == final(s).auto_pull && url@ == trimmed(old(s).inputs@[0]@) && username@ == trimmed(
            old(s).inputs@[1]@,
        ),
{
}

/// A secret that was stored is known to be, each on its own; one that was not shows the
/// error.
pub proof fn stored_secret_is_known(s: &mut SyncState, password: bool, result: Result<(), String>)
    requires
        call_ensures(SyncState::sync_secret_stored, (s, password, result), ()),
    ensures
        result is Ok && password ==> final(s).password_set && final(s).passphrase_set
            == old(s).passphrase_set,
        result is Ok && !password ==> final(s).passphrase_set && final(s).password_set
            == old(s).password_set,
        result matches Err(e) ==> final(s).status == Some((e, true)) && final(s).password_set
            == old(s).password_set && final(s).passphrase_set == old(s).passphrase_set,
        final(s).inputs == old(s).inputs,
{
}

/// A field that gets the keyboard leaves the one that had it; the last one stands for every
/// place behind it. What is stored is shown without its secrets.
pub proof fn focused_sync_field_leaves_the_other(
    s: &mut SyncState,
    index: usize,
    fx: &mut Fx,
    c: SyncCommit,
    t: &mut SyncState,
    url: &str,
    username: &str,
    auto_pull: bool,
    password_set: bool,
    passphrase_set: bool,
)
    requires
        call_ensures(SyncState::focus_sync_field, (s, index, fx), c),
        call_ensures(
            SyncState::load_sync_state,
            (t, url, username, auto_pull, password_set, passphrase_set),
            (),
        ),
        old(s).wf(),
    ensures
        index < 3 ==> final(s).focus == Some(index),
        index >= 3 && old(s).focus != Some(index) ==> final(s).focus == Some(3usize),
        old(s).focus == Some(index) ==> *final(s) == *old(s) && c is Nothing,
        old(s).focus is None ==> c is Nothing && final(s).inputs == old(s).inputs,
        (old(s).focus == Some(0usize) && index != 0) ==> c is SaveConfig,
        final(t).inputs@.len() == 4 && final(t).inputs@[0]@ == url@ && final(t).inputs@[1]@
            == username@ && final(t).inputs@[2]@.len() == 0 && final(t).inputs@[3]@.len() == 0,
        final(t).auto_pull == auto_pull && final(t).password_set == password_set
            && final(t).passphrase_set == passphrase_set && final(t).focus is None,
{
    let x = slot_texts(final(t).inputs@);
    assert(x.len() == 4);
    assert(x[0] == final(t).inputs@[0]@ && x[1] == final(t).inputs@[1]@ && x[2]
        == final(t).inputs@[2]@ && x[3] == final(t).inputs@[3]@);
}

/// What is pasted into a field goes behind what it holds, as far as it has room.
pub proof fn pasted_text_fills_the_sync_field(s: &mut SyncState, text: &str, fx: &mut Fx, j: int)
    requires
        call_ensures(SyncState::sync_field_paste, (s, text, fx), ()),
        old(s).wf(),
        0 <= j < 4,
    ensures
        old(s).focus is None ==> *final(s) == *old(s),
        old(s).focus matches Some(i) ==> {
            let v = old(s).inputs@[i as int]@;
            let taken = sync_rule(i).accepted(text@);
            &&& v.len() + taken.len() <= 256 ==> final(s).inputs@[i as int]@ == v + taken
            &&& v.len() <= 256 ==> final(s).inputs@[i as int]@.len() <= 256
            &&& j != i ==> final(s).inputs@[j]@ == old(s).inputs@[j]@
        },
{
    if old(s).focus is Some {
        let i = old(s).focus->0;
        let v = old(s).inputs@[i as int]@;
        let after = sync_rule(i).pasted(v, text@);
        if v.len() <= 256 {
            crate::slots::pasting_fills_the_slot(sync_rule(i), v, text@);
        }
        set_field_leaves_the_others(*old(s), *final(s), i, j, after);
    }
}

} // verus!
