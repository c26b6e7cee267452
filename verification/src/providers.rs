//! Model providers: the list, the form of the active one and its connection test.
use crate::fields::{spliced, TextField};
use crate::fx::Fx;
use crate::lang::UiLanguage;
use crate::page::{PageState, TextDrag};
use crate::slots::{accepted_chars, SlotRule};
use crate::text::{concat2, concat3, decimal, decimal_text, same_text, text_of};
use crate::words::{trim, trim_chars, trimmed};
use vstd::prelude::*;

verus! {

/// Longest value of a provider field, in characters.
pub const PROVIDER_FIELD_MAX: usize = 512;

/// Number of fields in the form: name, note, site, endpoint, model and key.
pub const PROVIDER_FIELDS: usize = 6;

/// The field of the key. It takes text and never gives any back.
pub const KEY_FIELD: usize = 5;

/// A model provider as stored. The key itself lives in the credential store.
#[derive(Debug)]
pub struct AiProvider {
    pub id: String,
    pub name: String,
    pub note: String,
    pub website_url: String,
    pub base_url: String,
    pub model: String,
    pub enabled: bool,
    pub codex_goals: bool,
    pub codex_remote_compaction: bool,
    pub api_key_set: bool,
    pub requires_api_key: bool,
}

impl AiProvider {
    /// A copy of the provider.
    pub fn duplicate(&self) -> (r: AiProvider)
        ensures
            r == *self,
    {
        AiProvider {
            id: self.id.clone(),
            name: self.name.clone(),
            note: self.note.clone(),
            website_url: self.website_url.clone(),
            base_url: self.base_url.clone(),
            model: self.model.clone(),
            enabled: self.enabled,
            codex_goals: self.codex_goals,
            codex_remote_compaction: self.codex_remote_compaction,
            api_key_set: self.api_key_set,
            requires_api_key: self.requires_api_key,
        }
    }

    /// Whether a connection can be tried: an endpoint over HTTP, a model, and a key where
    /// the provider needs one.
    pub open spec fn testable(self) -> bool {
        &&& begins_with(self.base_url@, "http://"@) || begins_with(self.base_url@, "https://"@)
        &&& trimmed(self.model@).len() > 0
        &&& self.requires_api_key ==> self.api_key_set
    }

    pub fn is_testable(&self) -> (r: bool)
        ensures
            r == self.testable(),
    {
        let web: bool = starts_with(self.base_url.as_str(), "http://") || starts_with(
            self.base_url.as_str(),
            "https://",
        );
        let model = trim(self.model.as_str());
        web && !model.as_str().is_empty() && (!self.requires_api_key || self.api_key_set)
    }
}

/// Whether `s` begins with `prefix`.
pub open spec fn begins_with(s: Seq<char>, prefix: Seq<char>) -> bool {
    s.len() >= prefix.len() && s.take(prefix.len() as int) == prefix
}

/// Whether `s` begins with `prefix`.
pub fn starts_with(s: &str, prefix: &str) -> (r: bool)
    ensures
        r == begins_with(s@, prefix@),
{
    let a = crate::text::chars_of(s);
    let b = crate::text::chars_of(prefix);
    if a.len() < b.len() {
        return false;
    }
    let mut i: usize = 0;
    while i < b.len()
        invariant
            i <= b@.len() <= a@.len(),
            a@ == s@,
            b@ == prefix@,
            a@.take(i as int) == b@.take(i as int),
        decreases b@.len() - i,
    {
        if a[i] != b[i] {
            proof {
                assert(s@.take(prefix@.len() as int)[i as int] != prefix@[i as int]);
            }
            return false;
        }
        i += 1;
        proof {
            assert(a@.take(i as int) =~= a@.take(i - 1).push(a@[i - 1]));
            assert(b@.take(i as int) =~= b@.take(i - 1).push(b@[i - 1]));
        }
    }
    proof {
        assert(b@.take(i as int) =~= prefix@);
    }
    true
}

/// A connection test that waits to be run.
#[derive(Debug)]
pub struct ProviderTestRequest {
    pub request_id: u64,
    pub provider: AiProvider,
}

/// A key that waits to be put into the credential store.
#[derive(Debug)]
pub struct StoreKey {
    pub provider_id: String,
    pub value: String,
}

/// How an action on the providers went on. A focused field is left first: what that asks
/// for has to be done before the action is tried again.
#[derive(Debug)]
pub enum ProviderStep {
    Leave(Option<StoreKey>),
    Done,
}

/// The providers and the form of the active one. `save` tells that the list waits to be
/// written.
#[derive(Debug)]
pub struct ProviderState {
    pub list: Vec<AiProvider>,
    pub active_id: String,
    pub inputs: Vec<TextField>,
    pub focus: Option<usize>,
    pub status: Option<(String, bool)>,
    pub test_seq: u64,
    pub test_request: Option<ProviderTestRequest>,
    pub codex_confirm: Option<String>,
    pub save: bool,
}

/// The number after `n`, starting again at zero.
pub open spec fn next_seq(n: u64) -> u64 {
    if n == u64::MAX {
        0
    } else {
        (n + 1) as u64
    }
}

/// White space belongs into the note only.
pub open spec fn provider_rule(index: usize) -> SlotRule {
    SlotRule { max: PROVIDER_FIELD_MAX, spaces: index == 1 }
}

/// What of `text` goes into a field that holds `len` characters.
pub open spec fn provider_clean(index: usize, len: int, text: Seq<char>) -> Seq<char> {
    let clean = provider_rule(index).accepted(text);
    let room = if len < PROVIDER_FIELD_MAX {
        PROVIDER_FIELD_MAX - len
    } else {
        0
    };
    if clean.len() <= room {
        clean
    } else {
        clean.take(room)
    }
}

/// Whether the field holds `text` with the caret behind it and nothing selected.
pub open spec fn field_shows(f: TextField, text: Seq<char>) -> bool {
    &&& f.text@ == text
    &&& f.caret == text.len()
    &&& f.anchor is None
}

/// The place of the first provider with this id.
pub open spec fn place_of(list: Seq<AiProvider>, id: Seq<char>) -> Option<int>
    decreases list.len(),
{
    if list.len() == 0 {
        None
    } else {
        match place_of(list.drop_last(), id) {
            Some(i) => Some(i),
            None => if list.last().id@ == id {
                Some(list.len() - 1)
            } else {
                None
            },
        }
    }
}

proof fn lemma_place_in_prefix(list: Seq<AiProvider>, id: Seq<char>, n: int)
    requires
        0 <= n <= list.len(),
        place_of(list.take(n), id) is Some,
    ensures
        place_of(list, id) == place_of(list.take(n), id),
    decreases list.len() - n,
{
    if n == list.len() {
        assert(list.take(n) =~= list);
    } else {
        assert(list.take(n + 1).drop_last() =~= list.take(n));
        lemma_place_in_prefix(list, id, n + 1);
    }
}

/// A place that is found is inside the list and holds the id.
pub proof fn place_is_inside(list: Seq<AiProvider>, id: Seq<char>)
    ensures
        place_of(list, id) matches Some(i) ==> 0 <= i < list.len() && list[i].id@ == id,
    decreases list.len(),
{
    if list.len() > 0 {
        place_is_inside(list.drop_last(), id);
        if let Some(i) = place_of(list.drop_last(), id) {
            assert(list.drop_last()[i] == list[i]);
        }
    }
}

impl ProviderState {
    pub open spec fn wf(self) -> bool {
        &&& self.inputs@.len() == PROVIDER_FIELDS
        &&& self.focus matches Some(i) ==> i < PROVIDER_FIELDS
        &&& forall|i: int| 0 <= i < PROVIDER_FIELDS ==> (#[trigger] self.inputs@[i]).wf()
    }

    /// The place of the active provider.
    pub open spec fn active(self) -> Option<int> {
        place_of(self.list@, self.active_id@)
    }

    /// The active provider, where there is one.
    pub open spec fn edited(self) -> AiProvider {
        self.list@[self.active()->0]
    }

    /// The place of the active provider.
    pub fn provider_edit_index(&self) -> (r: Option<usize>)
        ensures
            match r {
                Some(i) => self.active() == Some(i as int) && i < self.list@.len()
                    && self.list@[i as int].id@ == self.active_id@,
                None => self.active() is None,
            },
    {
        let mut i: usize = 0;
        proof {
            assert(self.list@.take(0).len() == 0);
        }
        while i < self.list.len()
            invariant
                i <= self.list@.len(),
                place_of(self.list@.take(i as int), self.active_id@) is None,
            decreases self.list@.len() - i,
        {
            proof {
                assert(self.list@.take(i + 1).drop_last() =~= self.list@.take(i as int));
            }
            if same_text(self.list[i].id.as_str(), self.active_id.as_str()) {
                proof {
                    lemma_place_in_prefix(self.list@, self.active_id@, i + 1);
                }
                return Some(i);
            }
            i += 1;
        }
        proof {
            assert(self.list@.take(i as int) =~= self.list@);
        }
        None
    }

    /// The form shows the active provider; the key is never shown.
    pub open spec fn shows_active(self) -> bool {
        let p = self.edited();
        let none = Seq::<char>::empty();
        let known = self.active() is Some;
        &&& self.focus is None
        &&& self.inputs@.len() == PROVIDER_FIELDS
        &&& field_shows(self.inputs@[0], if known { p.name@ } else { none })
        &&& field_shows(self.inputs@[1], if known { p.note@ } else { none })
        &&& field_shows(self.inputs@[2], if known { p.website_url@ } else { none })
        &&& field_shows(self.inputs@[3], if known { p.base_url@ } else { none })
        &&& field_shows(self.inputs@[4], if known { p.model@ } else { none })
        &&& field_shows(self.inputs@[5], none)
    }

    /// Fills the form from the active provider.
    pub fn provider_sync_inputs(&mut self)
        ensures
            final(self).wf(),
            final(self).shows_active(),
            *final(self) == (ProviderState { inputs: final(self).inputs, focus: None, ..*old(self) }),
    {
        let edit: Option<usize> = self.provider_edit_index();
        let mut inputs: Vec<TextField> = Vec::new();
        match edit {
            Some(i) => {
                let p = &self.list[i];
                inputs.push(TextField::holding(p.name.as_str()));
                inputs.push(TextField::holding(p.note.as_str()));
                inputs.push(TextField::holding(p.website_url.as_str()));
                inputs.push(TextField::holding(p.base_url.as_str()));
                inputs.push(TextField::holding(p.model.as_str()));
                inputs.push(TextField::empty());
            },
            None => {
                inputs.push(TextField::empty());
                inputs.push(TextField::empty());
                inputs.push(TextField::empty());
                inputs.push(TextField::empty());
                inputs.push(TextField::empty());
                inputs.push(TextField::empty());
            },
        }
        self.inputs = inputs;
        self.focus = None;
    }

    /// `now` is this state once its page was opened: the first provider is active where
    /// none was, and the form shows the active one.
    pub open spec fn opened(self, now: ProviderState) -> bool {
        &&& now.shows_active()
        &&& now.active_id@ == (if self.active_id@.len() == 0 && self.list@.len() > 0 {
            self.list@[0].id@
        } else {
            self.active_id@
        })
        &&& now == (ProviderState {
            active_id: now.active_id,
            inputs: now.inputs,
            focus: None,
            ..self
        })
    }

    /// Opens the page of the providers.
    pub fn open_page(&mut self)
        ensures
            final(self).wf(),
            old(self).opened(*final(self)),
    {
        if self.active_id.as_str().is_empty() && self.list.len() > 0 {
            self.active_id = self.list[0].id.clone();
        }
        self.provider_sync_inputs();
    }

    /// `now` is this state with the active provider replaced.
    pub open spec fn provider_set(self, now: ProviderState, p: AiProvider) -> bool {
        &&& now == (ProviderState { list: now.list, ..self })
        &&& now.list@ == self.list@.update(self.active()->0, p)
    }

    /// `now` is `p` with the value of the form field `field` taken over.
    pub open spec fn with_field(
        p: AiProvider,
        now: AiProvider,
        field: usize,
        value: Seq<char>,
    ) -> bool {
        &&& field == 0 ==> now == (AiProvider { name: now.name, ..p }) && now.name@ == value
        &&& field == 1 ==> now == (AiProvider { note: now.note, ..p }) && now.note@ == value
        &&& field == 2 ==> now == (AiProvider { website_url: now.website_url, ..p })
            && now.website_url@ == value
        &&& field == 3 ==> now == (AiProvider { base_url: now.base_url, ..p }) && now.base_url@
            == value
        &&& field == 4 ==> now == (AiProvider { model: now.model, ..p }) && now.model@ == value
        &&& field >= KEY_FIELD ==> now == p
    }

    /// `now` is this state once the focused field was left, and `key` the key that has to
    /// be stored.
    pub open spec fn field_left(self, now: ProviderState, key: Option<StoreKey>) -> bool {
        match (self.focus, self.active()) {
            (None, _) => now == self && key is None,
            (Some(f), None) => now == (ProviderState { focus: None, ..self }) && key is None,
            (Some(f), Some(i)) => {
                let value = trimmed(self.inputs@[f as int].text@);
                &&& now == (ProviderState {
                    focus: None,
                    save: true,
                    list: now.list,
                    inputs: now.inputs,
                    ..self
                })
                &&& now.list@ == self.list@.update(i, now.list@[i])
                &&& ProviderState::with_field(self.list@[i], now.list@[i], f, value)
                &&& f != KEY_FIELD ==> now.inputs == self.inputs && key is None
                &&& f == KEY_FIELD ==> {
                    &&& now.inputs@ == self.inputs@.update(5, now.inputs@[5])
                    &&& field_shows(now.inputs@[5], Seq::<char>::empty())
                    &&& key is Some <==> value.len() > 0
                    &&& key matches Some(k) ==> k.value@ == value && k.provider_id@
                        == self.active_id@
                }
            },
        }
    }

    /// What leaving the focused field asks of the window.
    pub open spec fn left_fx(self, fx: Fx) -> Fx {
        if self.focus is Some && self.active() is Some {
            fx.marked()
        } else {
            fx
        }
    }

    /// Takes the focus off the form and takes the value of the field over. A key that was
    /// typed is handed out to be stored and cleared from the form.
    pub fn commit_provider_field(&mut self, fx: &mut Fx) -> (key: Option<StoreKey>)
        requires
            old(self).wf(),
        ensures
            final(self).wf(),
            old(self).field_left(*final(self), key),
            *final(fx) == old(self).left_fx(*old(fx)),
    {
        let field: usize = match self.focus {
            Some(f) => f,
            None => {
                return None;
            },
        };
        self.focus = None;
        let index: usize = match self.provider_edit_index() {
            Some(i) => i,
            None => {
                return None;
            },
        };
        let value: String = trim_chars(&self.inputs[field].text);
        let mut key: Option<StoreKey> = None;
        if field == KEY_FIELD {
            if !value.as_str().is_empty() {
                key = Some(StoreKey { provider_id: self.active_id.clone(), value });
            }
            self.inputs.set(KEY_FIELD, TextField::empty());
        } else {
            let mut p = self.list[index].duplicate();
            if field == 0 {
                p.name = value;
            } else if field == 1 {
                p.note = value;
            } else if field == 2 {
                p.website_url = value;
            } else if field == 3 {
                p.base_url = value;
            } else {
                p.model = value;
            }
            self.list.set(index, p);
        }
        self.save = true;
        fx.mark();
        proof {
            assert(self.list@ =~= old(self).list@.update(index as int, self.list@[index as int]));
        }
        key
    }

    /// Takes over how storing the key of the active provider went.
    pub fn provider_key_stored(&mut self, result: Result<(), String>, language: UiLanguage)
        ensures
            match result {
                Err(e) => *final(self) == (ProviderState { status: Some((e, true)), ..*old(self) }),
                Ok(_) => {
                    let told = (ProviderState { status: final(self).status, ..*old(self) });
                    &&& final(self).says(
                        language.picked(
                            "API Key 已保存到凭据管理器"@,
                            "API key saved to the credential manager"@,
                        ),
                        false,
                    )
                    &&& old(self).active() is None ==> *final(self) == told
                    &&& old(self).active() is Some ==> told.provider_set(
                        *final(self),
                        AiProvider { api_key_set: true, ..old(self).edited() },
                    )
                },
            },
    {
        match result {
            Err(e) => {
                self.status = Some((e, true));
            },
            Ok(_) => {
                self.tell(
                    language.pick(
                        "API Key 已保存到凭据管理器",
                        "API key saved to the credential manager",
                    ),
                    false,
                );
                if let Some(i) = self.provider_edit_index() {
                    let mut p = self.list[i].duplicate();
                    p.api_key_set = true;
                    self.list.set(i, p);
                }
            },
        }
    }

    /// The message of the form.
    pub open spec fn says(self, text: Seq<char>, error: bool) -> bool {
        self.status matches Some((m, e)) && m@ == text && e == error
    }

    fn tell(&mut self, text: &str, error: bool)
        ensures
            final(self).says(text@, error),
            *final(self) == (ProviderState { status: final(self).status, ..*old(self) }),
    {
        self.status = Some((text.to_owned(), error));
    }

    /// This state with every answer of an earlier test ignored from now on.
    pub open spec fn tests_dropped(self) -> ProviderState {
        ProviderState {
            test_seq: next_seq(self.test_seq),
            test_request: None,
            codex_confirm: None,
            ..self
        }
    }

    fn drop_tests(&mut self)
        ensures
            *final(self) == old(self).tests_dropped(),
    {
        self.test_seq = self.test_seq.wrapping_add(1);
        self.test_request = None;
        self.codex_confirm = None;
    }

    /// Makes the provider at `index` the active one and shows it.
    pub fn provider_select(&mut self, index: usize, fx: &mut Fx) -> (step: ProviderStep)
        requires
            old(self).wf(),
        ensures
            final(self).wf(),
            index >= old(self).list@.len() ==> step is Done && *final(self) == *old(self)
                && *final(fx) == *old(fx),
            index < old(self).list@.len() && old(self).focus is Some ==> {
                &&& step matches ProviderStep::Leave(k) && old(self).field_left(*final(self), k)
                &&& *final(fx) == old(self).left_fx(*old(fx))
            },
            index < old(self).list@.len() && old(self).focus is None ==> {
                &&& step is Done
                &&& final(self).active_id@ == old(self).list@[index as int].id@
                &&& final(self).shows_active()
                &&& *final(self) == (ProviderState {
                    active_id: final(self).active_id,
                    inputs: final(self).inputs,
                    status: None,
                    save: true,
                    ..old(self).tests_dropped()
                })
                &&& *final(fx) == old(fx).marked()
            },
    {
        if index >= self.list.len() {
            return ProviderStep::Done;
        }
        if self.focus.is_some() {
            return ProviderStep::Leave(self.commit_provider_field(fx));
        }
        self.active_id = self.list[index].id.clone();
        self.drop_tests();
        self.status = None;
        self.save = true;
        self.provider_sync_inputs();
        fx.mark();
        ProviderStep::Done
    }

    /// Adds a provider and makes it the active one.
    pub fn provider_add(&mut self, provider: AiProvider, fx: &mut Fx) -> (step: ProviderStep)
        requires
            old(self).wf(),
        ensures
            final(self).wf(),
            old(self).focus is Some ==> {
                &&& step matches ProviderStep::Leave(k) && old(self).field_left(*final(self), k)
                &&& *final(fx) == old(self).left_fx(*old(fx))
            },
            old(self).focus is None ==> {
                &&& step is Done
                &&& final(self).list@ == old(self).list@.push(provider)
                &&& final(self).active_id@ == provider.id@
                &&& final(self).shows_active()
                &&& *final(self) == (ProviderState {
                    list: final(self).list,
                    active_id: final(self).active_id,
                    inputs: final(self).inputs,
                    status: None,
                    codex_confirm: None,
                    save: true,
                    ..*old(self)
                })
                &&& *final(fx) == old(fx).marked()
            },
    {
        if self.focus.is_some() {
            return ProviderStep::Leave(self.commit_provider_field(fx));
        }
        self.active_id = provider.id.clone();
        self.list.push(provider);
        self.codex_confirm = None;
        self.status = None;
        self.provider_sync_inputs();
        self.save = true;
        fx.mark();
        ProviderStep::Done
    }

    pub fn provider_toggle_codex_goals(&mut self, fx: &mut Fx)
        ensures
            old(self).active() is None ==> *final(self) == *old(self) && *final(fx) == *old(fx),
            old(self).active() is Some ==> {
                let p = old(self).edited();
                &&& (ProviderState { codex_confirm: None, save: true, ..*old(self) }).provider_set(
                    *final(self),
                    AiProvider { codex_goals: !p.codex_goals, ..p },
                )
                &&& *final(fx) == old(fx).marked()
            },
    {
        if let Some(i) = self.provider_edit_index() {
            let mut p = self.list[i].duplicate();
            p.codex_goals = !p.codex_goals;
            self.list.set(i, p);
            self.codex_confirm = None;
            self.save = true;
            fx.mark();
        }
    }

    pub fn provider_toggle_codex_remote(&mut self, fx: &mut Fx)
        ensures
            old(self).active() is None ==> *final(self) == *old(self) && *final(fx) == *old(fx),
            old(self).active() is Some ==> {
                let p = old(self).edited();
                &&& (ProviderState { codex_confirm: None, save: true, ..*old(self) }).provider_set(
                    *final(self),
                    AiProvider { codex_remote_compaction: !p.codex_remote_compaction, ..p },
                )
                &&& *final(fx) == old(fx).marked()
            },
    {
        if let Some(i) = self.provider_edit_index() {
            let mut p = self.list[i].duplicate();
            p.codex_remote_compaction = !p.codex_remote_compaction;
            self.list.set(i, p);
            self.codex_confirm = None;
            self.save = true;
            fx.mark();
        }
    }

    pub fn provider_toggle_enabled(&mut self, fx: &mut Fx)
        ensures
            old(self).active() is None ==> *final(self) == *old(self) && *final(fx) == *old(fx),
            old(self).active() is Some ==> {
                let p = old(self).edited();
                &&& (ProviderState { save: true, ..*old(self) }).provider_set(
                    *final(self),
                    AiProvider { enabled: !p.enabled, ..p },
                )
                &&& *final(fx) == old(fx).marked()
            },
    {
        if let Some(i) = self.provider_edit_index() {
            let mut p = self.list[i].duplicate();
            p.enabled = !p.enabled;
            self.list.set(i, p);
            self.save = true;
            fx.mark();
        }
    }

    /// Whether the active provider waits for the second click that writes its key out.
    pub open spec fn codex_armed(self) -> bool {
        self.codex_confirm matches Some(id) && id@ == self.active_id@
    }

    /// Hands the active provider out to be written to the Codex configuration. Since that
    /// stores the key in clear text, only the second click in a row does so.
    pub fn provider_apply_codex(&mut self, language: UiLanguage, fx: &mut Fx) -> (r: (
        ProviderStep,
        Option<AiProvider>,
    ))
        requires
            old(self).wf(),
        ensures
            final(self).wf(),
            old(self).focus is Some ==> {
                &&& r.0 matches ProviderStep::Leave(k) && old(self).field_left(*final(self), k)
                &&& r.1 is None
                &&& *final(fx) == old(self).left_fx(*old(fx))
            },
            old(self).focus is None ==> {
                &&& r.0 is Done
                &&& old(self).active() is None ==> *final(self) == *old(self)
                    && *final(fx) == *old(fx) && r.1 is None
                &&& old(self).active() is Some && !old(self).codex_armed() ==> {
                    &&& r.1 is None
                    &&& final(self).codex_armed()
                    &&& *final(self) == (ProviderState {
                        codex_confirm: final(self).codex_confirm,
                        status: final(self).status,
                        ..*old(self)
                    })
                    &&& final(self).says(
                        language.picked(
                            "再次点击确认：API Key 将明文写入 Codex auth.json（原文件会备份）"@,
                            "Click again: the API key will be written to Codex auth.json in plaintext (with backup)"@,
                        ),
                        false,
                    )
                    &&& *final(fx) == old(fx).marked()
                }
                &&& old(self).active() is Some && old(self).codex_armed() ==> {
                    &&& r.1 == Some(old(self).edited())
                    &&& *final(self) == (ProviderState { codex_confirm: None, ..*old(self) })
                    &&& *final(fx) == old(fx).marked()
                }
            },
    {
        if self.focus.is_some() {
            return (ProviderStep::Leave(self.commit_provider_field(fx)), None);
        }
        let index: usize = match self.provider_edit_index() {
            Some(i) => i,
            None => {
                return (ProviderStep::Done, None);
            },
        };
        let armed: bool = match &self.codex_confirm {
            Some(id) => same_text(id.as_str(), self.active_id.as_str()),
            None => false,
        };
        fx.mark();
        if !armed {
            self.codex_confirm = Some(self.active_id.clone());
            self.tell(
                language.pick(
                    "再次点击确认：API Key 将明文写入 Codex auth.json（原文件会备份）",
                    "Click again: the API key will be written to Codex auth.json in plaintext (with backup)",
                ),
                false,
            );
            return (ProviderStep::Done, None);
        }
        self.codex_confirm = None;
        (ProviderStep::Done, Some(self.list[index].duplicate()))
    }

    /// Takes over how writing to the Codex configuration went: the file, or the error.
    pub fn provider_codex_applied(
        &mut self,
        result: Result<String, String>,
        language: UiLanguage,
        fx: &mut Fx,
    )
        ensures
            *final(self) == (ProviderState { status: final(self).status, ..*old(self) }),
            match result {
                Ok(path) => final(self).says(
                    language.picked("已应用到 Codex："@, "Applied to Codex: "@) + path@,
                    false,
                ),
                Err(e) => final(self).status == Some((e, true)),
            },
            *final(fx) == old(fx).marked(),
    {
        match result {
            Ok(path) => {
                let text = concat2(
                    language.pick("已应用到 Codex：", "Applied to Codex: "),
                    path.as_str(),
                );
                self.status = Some((text, false));
            },
            Err(e) => {
                self.status = Some((e, true));
            },
        }
        fx.mark();
    }

    /// Moves the focus to another field, the caret behind its text.
    pub fn focus_provider_field(&mut self, index: usize, fx: &mut Fx) -> (key: Option<StoreKey>)
        requires
            old(self).wf(),
        ensures
            final(self).wf(),
            index >= PROVIDER_FIELDS || old(self).focus == Some(index) ==> *final(self) == *old(self) && *final(fx) == *old(fx) && key is None,
            index < PROVIDER_FIELDS && old(self).focus != Some(index) ==> {
                &&& final(self).focus == Some(index)
                &&& *final(fx) == old(fx).marked()
                &&& old(self).focused_elsewhere(*final(self), index, key)
            },
    {
        if index >= PROVIDER_FIELDS {
            return None;
        }
        if let Some(focus) = self.focus {
            if focus == index {
                return None;
            }
        }
        let key = self.commit_provider_field(fx);
        let ghost mid = *self;
        self.focus = Some(index);
        self.inputs[index].jump(true, false);
        fx.mark();
        proof {
            assert(self.inputs@ =~= mid.inputs@.update(index as int, self.inputs@[index as int]));
            assert(mid.caret_moved_to_end(*self, index));
        }
        key
    }

    /// `now` is this state with the field `i` focused and its caret behind the text.
    pub open spec fn caret_moved_to_end(self, now: ProviderState, i: usize) -> bool {
        let f = now.inputs@[i as int];
        &&& now == (ProviderState { focus: Some(i), inputs: now.inputs, ..self })
        &&& now.inputs@ == self.inputs@.update(i as int, f)
        &&& field_shows(f, self.inputs@[i as int].text@)
    }

    /// `now` is this state once its field was left for the field `i`.
    pub open spec fn focused_elsewhere(
        self,
        now: ProviderState,
        i: usize,
        key: Option<StoreKey>,
    ) -> bool {
        exists|mid: ProviderState|
            self.field_left(mid, key) && #[trigger] mid.caret_moved_to_end(now, i)
    }

    /// `now` is this state with `f` in the field `i`.
    pub open spec fn field_changed(self, now: ProviderState, i: usize) -> bool {
        &&& now == (ProviderState { inputs: now.inputs, ..self })
        &&& now.inputs@ == self.inputs@.update(i as int, now.inputs@[i as int])
    }

    /// Types text into the focused field, as far as it is taken and fits.
    pub fn provider_field_paste(&mut self, text: &str, fx: &mut Fx)
        requires
            old(self).wf(),
            old(self).focus matches Some(i) ==> old(self).inputs@[i as int].text@.len() + 512
                <= usize::MAX,
        ensures
            final(self).wf(),
            old(self).focus is None ==> *final(self) == *old(self) && *final(fx) == *old(fx),
            old(self).focus matches Some(i) ==> {
                let f = old(self).inputs@[i as int];
                let now = final(self).inputs@[i as int];
                let clean = provider_clean(i, f.text@.len() as int, text@);
                &&& old(self).field_changed(*final(self), i)
                &&& now.text@ == spliced(f.text@, f.selection().0, f.selection().1, clean)
                &&& now.caret == f.selection().0 + clean.len()
                &&& now.anchor is None
                &&& *final(fx) == old(fx).marked()
            },
    {
        if let Some(index) = self.focus {
            let len: usize = self.inputs[index].text.len();
            let room: usize = PROVIDER_FIELD_MAX.saturating_sub(len);
            let rule = SlotRule { max: PROVIDER_FIELD_MAX, spaces: index == 1 };
            let mut clean = accepted_chars(rule, text);
            if clean.len() > room {
                clean.truncate(room);
                proof {
                    assert(clean@ =~= rule.accepted(text@).take(room as int));
                }
            }
            self.inputs[index].insert(&clean);
            fx.mark();
        }
    }

    /// Types a character into the focused field.
    pub fn provider_field_push(&mut self, ch: char, fx: &mut Fx)
        requires
            old(self).wf(),
            old(self).focus matches Some(i) ==> old(self).inputs@[i as int].text@.len() + 512
                <= usize::MAX,
        ensures
            final(self).wf(),
            old(self).focus is None ==> *final(self) == *old(self) && *final(fx) == *old(fx),
            old(self).focus matches Some(i) ==> {
                let f = old(self).inputs@[i as int];
                let now = final(self).inputs@[i as int];
                let clean = provider_clean(i, f.text@.len() as int, seq![ch]);
                &&& old(self).field_changed(*final(self), i)
                &&& now.text@ == spliced(f.text@, f.selection().0, f.selection().1, clean)
                &&& now.caret == f.selection().0 + clean.len()
                &&& now.anchor is None
                &&& *final(fx) == old(fx).marked()
            },
    {
        let mut one: Vec<char> = Vec::new();
        one.push(ch);
        let text = text_of(&one);
        proof {
            assert(one@ =~= seq![ch]);
        }
        self.provider_field_paste(text.as_str(), fx);
    }

    pub fn provider_field_backspace(&mut self, fx: &mut Fx)
        requires
            old(self).wf(),
        ensures
            final(self).wf(),
            old(self).focus is None ==> *final(self) == *old(self) && *final(fx) == *old(fx),
            old(self).focus matches Some(i) ==> {
                let now = final(self).inputs@[i as int];
                &&& old(self).field_changed(*final(self), i)
                &&& (now.text@, now.caret as int) == old(self).inputs@[i as int].erased_back()
                &&& now.anchor is None
                &&& *final(fx) == old(fx).marked()
            },
    {
        if let Some(index) = self.focus {
            self.inputs[index].backspace();
            fx.mark();
        }
    }

    pub fn provider_field_delete_forward(&mut self, fx: &mut Fx)
        requires
            old(self).wf(),
        ensures
            final(self).wf(),
            old(self).focus is None ==> *final(self) == *old(self) && *final(fx) == *old(fx),
            old(self).focus matches Some(i) ==> {
                let f = old(self).inputs@[i as int];
                let now = final(self).inputs@[i as int];
                &&& old(self).field_changed(*final(self), i)
                &&& now.text@ == f.erased_forward()
                &&& now.caret == f.selection().0
                &&& now.anchor is None
                &&& *final(fx) == old(fx).marked()
            },
    {
        if let Some(index) = self.focus {
            self.inputs[index].delete_forward();
            fx.mark();
        }
    }

    pub fn provider_field_move(&mut self, forward: bool, extend: bool, fx: &mut Fx)
        requires
            old(self).wf(),
        ensures
            final(self).wf(),
            old(self).focus is None ==> *final(self) == *old(self) && *final(fx) == *old(fx),
            old(self).focus matches Some(i) ==> {
                let f = old(self).inputs@[i as int];
                let now = final(self).inputs@[i as int];
                let step = if forward {
                    1int
                } else {
                    -1int
                };
                &&& old(self).field_changed(*final(self), i)
                &&& now.text == f.text
                &&& now.caret == f.moved(step, extend)
                &&& now.anchor == f.anchored(extend)
                &&& *final(fx) == old(fx).marked()
            },
    {
        if let Some(index) = self.focus {
            let step: i32 = if forward {
                1
            } else {
                -1
            };
            self.inputs[index].move_by(step, extend);
            fx.mark();
        }
    }

    pub fn provider_field_jump(&mut self, to_end: bool, extend: bool, fx: &mut Fx)
        requires
            old(self).wf(),
        ensures
            final(self).wf(),
            old(self).focus is None ==> *final(self) == *old(self) && *final(fx) == *old(fx),
            old(self).focus matches Some(i) ==> {
                let f = old(self).inputs@[i as int];
                let now = final(self).inputs@[i as int];
                &&& old(self).field_changed(*final(self), i)
                &&& now.text == f.text
                &&& now.caret == (if to_end {
                    f.text@.len() as int
                } else {
                    0
                })
                &&& now.anchor == f.anchored(extend)
                &&& *final(fx) == old(fx).marked()
            },
    {
        if let Some(index) = self.focus {
            self.inputs[index].jump(to_end, extend);
            fx.mark();
        }
    }

    pub fn provider_field_select_all(&mut self, fx: &mut Fx)
        requires
            old(self).wf(),
        ensures
            final(self).wf(),
            old(self).focus is None ==> *final(self) == *old(self) && *final(fx) == *old(fx),
            old(self).focus matches Some(i) ==> {
                let f = old(self).inputs@[i as int];
                let now = final(self).inputs@[i as int];
                &&& old(self).field_changed(*final(self), i)
                &&& now.text == f.text
                &&& now.caret == f.text@.len()
                &&& now.anchor == Some(0usize)
                &&& *final(fx) == old(fx).marked()
            },
    {
        if let Some(index) = self.focus {
            self.inputs[index].select_all();
            fx.mark();
        }
    }

    /// What a copy takes: the selection, and nothing of the key.
    pub open spec fn copied(self) -> Option<Seq<char>> {
        match self.focus {
            Some(i) => {
                let f = self.inputs@[i as int];
                if i != KEY_FIELD && f.has_selection() {
                    Some(f.text@.subrange(f.selection().0, f.selection().1))
                } else {
                    None
                }
            },
            None => None,
        }
    }

    /// The selected text. The key is never given back.
    pub fn provider_field_selected_text(&self) -> (r: Option<String>)
        requires
            self.wf(),
        ensures
            match r {
                Some(s) => self.copied() == Some(s@),
                None => self.copied() is None,
            },
    {
        match self.focus {
            Some(i) => if i == KEY_FIELD {
                None
            } else {
                self.inputs[i].selected_text()
            },
            None => None,
        }
    }

    /// Cuts the selected text. Where there is none to give back, nothing is erased.
    pub fn provider_field_cut(&mut self, fx: &mut Fx) -> (r: Option<String>)
        requires
            old(self).wf(),
        ensures
            final(self).wf(),
            match r {
                Some(s) => old(self).copied() == Some(s@),
                None => old(self).copied() is None,
            },
            r is None ==> *final(self) == *old(self) && *final(fx) == *old(fx),
            r is Some ==> {
                let i = old(self).focus->0;
                let now = final(self).inputs@[i as int];
                &&& old(self).field_changed(*final(self), i)
                &&& (now.text@, now.caret as int) == old(self).inputs@[i as int].erased_back()
                &&& now.anchor is None
                &&& *final(fx) == old(fx).marked()
            },
    {
        let selected = self.provider_field_selected_text();
        if selected.is_some() {
            self.provider_field_backspace(fx);
        }
        selected
    }

    /// `now` is this state with the caret of the field before the character `at`, where it
    /// has the focus and is on the page.
    pub open spec fn placed(
        self,
        now: ProviderState,
        index: usize,
        at: Option<usize>,
        extend: bool,
    ) -> bool {
        let f = self.inputs@[index as int];
        let g = now.inputs@[index as int];
        let moves = self.focus == Some(index) && at is Some;
        &&& !moves ==> now == self
        &&& moves ==> {
            &&& self.field_changed(now, index)
            &&& g.text == f.text
            &&& g.caret == (if at->0 <= f.text@.len() {
                at->0 as int
            } else {
                f.text@.len() as int
            })
            &&& g.anchor == f.anchored(extend)
        }
    }

    /// What that asks for.
    pub open spec fn placed_fx(self, index: usize, at: Option<usize>, fx: Fx) -> Fx {
        if self.focus == Some(index) && at is Some {
            fx.marked()
        } else {
            fx
        }
    }

    /// Puts the caret of the focused field before the character `at`; `at` is `None` where
    /// the field is not on the page.
    pub fn provider_field_place(
        &mut self,
        index: usize,
        at: Option<usize>,
        extend: bool,
        fx: &mut Fx,
    )
        requires
            old(self).wf(),
        ensures
            final(self).wf(),
            old(self).placed(*final(self), index, at, extend),
            *final(fx) == old(self).placed_fx(index, at, *old(fx)),
    {
        let focused: bool = match self.focus {
            Some(i) => i == index,
            None => false,
        };
        if !focused {
            return;
        }
        if let Some(to) = at {
            self.inputs[index].place(to, extend);
            fx.mark();
        }
    }

    /// Starts a selection drag in a field.
    pub fn begin_provider_field_drag(
        &mut self,
        index: usize,
        at: Option<usize>,
        extend: bool,
        page: &mut PageState,
        fx: &mut Fx,
    )
        requires
            old(self).wf(),
        ensures
            final(self).wf(),
            old(self).placed(*final(self), index, at, extend),
            *final(page) == (PageState {
                text_drag: Some(TextDrag::Provider(index)),
                ..*old(page)
            }),
            *final(fx) == old(self).placed_fx(index, at, *old(fx)).following(),
    {
        self.provider_field_place(index, at, extend, fx);
        page.text_drag = Some(TextDrag::Provider(index));
        fx.follow_caret();
    }

    /// Says how writing the list went, once the focused field was left.
    pub fn provider_save(
        &mut self,
        result: Result<(), String>,
        language: UiLanguage,
        fx: &mut Fx,
    ) -> (step: ProviderStep)
        requires
            old(self).wf(),
        ensures
            final(self).wf(),
            old(self).focus is Some ==> {
                &&& step matches ProviderStep::Leave(k) && old(self).field_left(*final(self), k)
                &&& *final(fx) == old(self).left_fx(*old(fx))
            },
            old(self).focus is None ==> {
                &&& step is Done
                &&& *final(self) == (ProviderState { status: final(self).status, ..*old(self) })
                &&& match result {
                    Ok(_) => final(self).says(
                        language.picked("供应商配置已保存"@, "Provider saved"@),
                        false,
                    ),
                    Err(e) => final(self).status == Some((e, true)),
                }
                &&& *final(fx) == old(fx).marked()
            },
    {
        if self.focus.is_some() {
            return ProviderStep::Leave(self.commit_provider_field(fx));
        }
        match result {
            Ok(_) => self.tell(language.pick("供应商配置已保存", "Provider saved"), false),
            Err(e) => {
                self.status = Some((e, true));
            },
        }
        fx.mark();
        ProviderStep::Done
    }

    /// Asks for a connection test of the active provider, where it can be tried at all.
    pub fn provider_test(&mut self, language: UiLanguage, fx: &mut Fx) -> (step: ProviderStep)
        requires
            old(self).wf(),
        ensures
            final(self).wf(),
            old(self).focus is Some ==> {
                &&& step matches ProviderStep::Leave(k) && old(self).field_left(*final(self), k)
                &&& *final(fx) == old(self).left_fx(*old(fx))
            },
            old(self).focus is None ==> {
                let p = old(self).edited();
                &&& step is Done
                &&& old(self).active() is None ==> *final(self) == *old(self)
                    && *final(fx) == *old(fx)
                &&& old(self).active() is Some ==> *final(fx) == old(fx).marked()
                &&& old(self).active() is Some && !p.testable() ==> {
                    &&& *final(self) == (ProviderState { status: final(self).status, ..*old(self) })
                    &&& final(self).says(
                        language.picked(
                            "请填写有效的请求地址、模型并保存 API Key"@,
                            "Enter an endpoint and model, then save an API key"@,
                        ),
                        true,
                    )
                }
                &&& old(self).active() is Some && p.testable() ==> {
                    let seq = next_seq(old(self).test_seq);
                    &&& *final(self) == (ProviderState {
                        status: final(self).status,
                        test_seq: seq,
                        test_request: Some(ProviderTestRequest { request_id: seq, provider: p }),
                        ..*old(self)
                    })
                    &&& final(self).says(
                        language.picked("正在测试连接…"@, "Testing connection..."@),
                        false,
                    )
                }
            },
    {
        if self.focus.is_some() {
            return ProviderStep::Leave(self.commit_provider_field(fx));
        }
        let index: usize = match self.provider_edit_index() {
            Some(i) => i,
            None => {
                return ProviderStep::Done;
            },
        };
        fx.mark();
        if !self.list[index].is_testable() {
            self.tell(
                language.pick(
                    "请填写有效的请求地址、模型并保存 API Key",
                    "Enter an endpoint and model, then save an API key",
                ),
                true,
            );
            return ProviderStep::Done;
        }
        self.test_seq = self.test_seq.wrapping_add(1);
        self.test_request = Some(
            ProviderTestRequest {
                request_id: self.test_seq,
                provider: self.list[index].duplicate(),
            },
        );
        self.tell(language.pick("正在测试连接…", "Testing connection..."), false);
        ProviderStep::Done
    }

    /// Hands the waiting test out, once.
    pub fn take_provider_test_request(&mut self) -> (r: Option<ProviderTestRequest>)
        ensures
            r == old(self).test_request,
            *final(self) == (ProviderState { test_request: None, ..*old(self) }),
    {
        self.test_request.take()
    }

    /// Whether an answer belongs to the test that was asked for last.
    pub open spec fn answers(self, request_id: u64, provider_id: Seq<char>) -> bool {
        request_id == self.test_seq && provider_id == self.active_id@
    }

    /// Shows the answer of a test. An answer to an earlier test is ignored.
    pub fn provider_test_done(
        &mut self,
        request_id: u64,
        provider_id: &str,
        message: &str,
        success: bool,
        elapsed_ms: u64,
        fx: &mut Fx,
    )
        ensures
            !old(self).answers(request_id, provider_id@) ==> *final(self) == *old(self)
                && *final(fx) == *old(fx),
            old(self).answers(request_id, provider_id@) ==> {
                &&& *final(self) == (ProviderState { status: final(self).status, ..*old(self) })
                &&& final(self).says(
                    message@ + " · "@ + (decimal_text(elapsed_ms as nat) + " ms"@),
                    !success,
                )
                &&& *final(fx) == old(fx).marked()
            },
    {
        if request_id != self.test_seq || !same_text(provider_id, self.active_id.as_str()) {
            return;
        }
        let time = concat2(decimal(elapsed_ms).as_str(), " ms");
        let text = concat3(message, " · ", time.as_str());
        self.status = Some((text, !success));
        fx.mark();
    }

    /// Takes over how deleting the active provider went: the providers that stay and the
    /// one that is active then, or the error.
    pub fn provider_delete(
        &mut self,
        removed: Result<(Vec<AiProvider>, String), String>,
        language: UiLanguage,
        fx: &mut Fx,
    )
        requires
            old(self).wf(),
        ensures
            final(self).wf(),
            old(self).active() is None ==> *final(self) == *old(self) && *final(fx) == *old(fx),
            old(self).active() is Some ==> {
                &&& *final(fx) == old(fx).marked()
                &&& match removed {
                    Ok((list, active_id)) => {
                        &&& *final(self) == (ProviderState {
                            list,
                            active_id,
                            inputs: final(self).inputs,
                            focus: None,
                            status: final(self).status,
                            ..old(self).tests_dropped()
                        })
                        &&& final(self).shows_active()
                        &&& final(self).says(
                            language.picked("供应商已删除"@, "Provider deleted"@),
                            false,
                        )
                    },
                    Err(e) => *final(self) == (ProviderState {
                        status: Some((e, true)),
                        ..old(self).tests_dropped()
                    }),
                }
            },
    {
        if self.provider_edit_index().is_none() {
            return;
        }
        self.drop_tests();
        match removed {
            Ok((list, active_id)) => {
                self.list = list;
                self.active_id = active_id;
                self.provider_sync_inputs();
                self.tell(language.pick("供应商已删除", "Provider deleted"), false);
            },
            Err(e) => {
                self.status = Some((e, true));
            },
        }
        fx.mark();
    }

    pub fn provider_count(&self) -> (n: usize)
        ensures
            n == self.list@.len(),
    {
        self.list.len()
    }
}

/// Once another provider was chosen or one was deleted, no answer to an earlier test is
/// shown.
pub proof fn dropped_tests_are_not_answered(was: ProviderState, id: Seq<char>)
    ensures
        !was.tests_dropped().answers(was.test_seq, id),
{
}

/// Leaving the key field leaves nothing of the key in the form, and neither copying nor
/// cutting gives it back while it is there.
pub proof fn key_stays_secret(was: ProviderState, now: ProviderState, key: Option<StoreKey>)
    requires
        was.wf(),
        was.focus == Some(KEY_FIELD),
        was.active() is Some,
        was.field_left(now, key),
    ensures
        was.copied() is None,
        now.inputs@[KEY_FIELD as int].text@.len() == 0,
{
}

/// A text begins with a prefix exactly where something stands behind it.
pub proof fn prefix_stands_in_front(prefix: Seq<char>, rest: Seq<char>, s: Seq<char>)
    ensures
        begins_with(prefix + rest, prefix),
        begins_with(s, prefix) <==> s == prefix + s.skip(prefix.len() as int) && s.len()
            >= prefix.len(),
        begins_with(s, Seq::empty()),
{
    assert((prefix + rest).take(prefix.len() as int) =~= prefix);
    if s.len() >= prefix.len() {
        assert(s =~= s.take(prefix.len() as int) + s.skip(prefix.len() as int));
        assert((prefix + s.skip(prefix.len() as int)).take(prefix.len() as int) =~= prefix);
    }
    assert(s.take(0) =~= Seq::empty());
}

/// The first entry with an id is the one that the id stands for.
pub proof fn id_stands_for_the_first_entry(list: Seq<AiProvider>, id: Seq<char>)
    ensures
        match place_of(list, id) {
            Some(i) => 0 <= i < list.len() && list[i].id@ == id && forall|j: int|
                0 <= j < i ==> (#[trigger] list[j]).id@ != id,
            None => forall|j: int| 0 <= j < list.len() ==> (#[trigger] list[j]).id@ != id,
        },
    decreases list.len(),
{
    if list.len() > 0 {
        let front = list.drop_last();
        id_stands_for_the_first_entry(front, id);
        assert forall|j: int| 0 <= j < front.len() implies front[j] == #[trigger] list[j] by {}
    }
}

/// A number that comes next differs from the one before it, and no two numbers have the same
/// next one.
pub proof fn next_number_differs(a: u64, b: u64)
    ensures
        next_seq(a) != a,
        next_seq(a) == next_seq(b) ==> a == b,
        a < u64::MAX ==> next_seq(a) == a + 1,
{
}

/// A provider can be tested with a web address, a model and the key that it needs, and each
/// of these is needed.
pub proof fn test_needs_address_model_and_key(p: AiProvider)
    ensures
        p.testable() ==> trimmed(p.model@).len() > 0 && p.base_url@.len() >= 7,
        p.requires_api_key && !p.api_key_set ==> !p.testable(),
        trimmed(p.model@).len() == 0 ==> !p.testable(),
        begins_with(p.base_url@, "https://"@) && trimmed(p.model@).len() > 0 && !p.requires_api_key
            ==> p.testable(),
        begins_with(p.base_url@, "http://"@) && trimmed(p.model@).len() > 0 && p.api_key_set
            ==> p.testable(),
        !begins_with(p.base_url@, "http"@) ==> !p.testable(),
{
    reveal_strlit("http://");
    reveal_strlit("https://");
    reveal_strlit("http");
    let n = p.base_url@;
    if begins_with(n, "http://"@) {
        assert(n.take(4) =~= n.take(7).take(4));
        assert("http://"@.take(4) =~= "http"@);
    }
    if begins_with(n, "https://"@) {
        assert(n.take(4) =~= n.take(8).take(4));
        assert("https://"@.take(4) =~= "http"@);
    }
}

/// A field takes of a pasted text what its rule takes, as much as there is room for.
pub proof fn pasted_field_fits(index: usize, len: int, text: Seq<char>)
    requires
        0 <= len,
    ensures
        ({
            let taken = text.filter(|c: char| provider_rule(index).takes(c));
            let clean = provider_clean(index, len, text);
            &&& clean.len() <= taken.len() && clean == taken.take(clean.len() as int)
            &&& len <= 512 ==> len + clean.len() <= 512
            &&& clean.len() < taken.len() ==> len + clean.len() >= 512
        }),
        provider_rule(index).spaces <==> index == 1,
        provider_rule(index).max == 512,
{
    crate::slots::slot_takes_all_but_control_characters(provider_rule(index), text, ' ');
    let taken = provider_rule(index).accepted(text);
    assert(taken.take(taken.len() as int) =~= taken);
}

/// Leaving a field changes that field of the provider alone, to what was typed without white
/// space at its ends.
pub proof fn left_field_is_taken_over(
    was: ProviderState,
    now: ProviderState,
    key: Option<StoreKey>,
    j: int,
)
    requires
        was.wf(),
        was.field_left(now, key),
    ensures
        now.focus is None,
        now.active_id == was.active_id && now.test_seq == was.test_seq && now.status == was.status,
        was.focus is None ==> now.list == was.list && now.save == was.save,
        (was.focus matches Some(f) && was.active() is Some) ==> {
            let i = was.active()->0;
            let p = was.list@[i];
            let q = now.list@[i];
            let value = trimmed(was.inputs@[was.focus->0 as int].text@);
            let f = was.focus->0;
            &&& now.save
            &&& now.list@.len() == was.list@.len()
            &&& 0 <= j < was.list@.len() && j != i ==> now.list@[j] == was.list@[j]
            &&& q.id == p.id && q.enabled == p.enabled && q.codex_goals == p.codex_goals
                && q.api_key_set == p.api_key_set
            &&& q.name@ == (if f == 0 {
                value
            } else {
                p.name@
            })
            &&& q.note@ == (if f == 1 {
                value
            } else {
                p.note@
            })
            &&& q.website_url@ == (if f == 2 {
                value
            } else {
                p.website_url@
            })
            &&& q.base_url@ == (if f == 3 {
                value
            } else {
                p.base_url@
            })
            &&& q.model@ == (if f == 4 {
                value
            } else {
                p.model@
            })
            &&& key is Some ==> f == 5 && (key->0).value@ == value && (key->0).provider_id@
                == was.active_id@
            &&& f == 5 && value.len() > 0 ==> key is Some
        },
{
    id_stands_for_the_first_entry(was.list@, was.active_id@);
}

/// The page shows the provider that is edited, and never its key; without one it shows
/// nothing. Where none was chosen, the first one is.
pub proof fn page_shows_the_edited_provider(was: ProviderState, now: ProviderState)
    requires
        was.opened(now),
    ensures
        now.active() is Some ==> now.inputs@[0].text@ == now.edited().name@ && now.inputs@[1].text@
            == now.edited().note@ && now.inputs@[2].text@ == now.edited().website_url@
            && now.inputs@[3].text@ == now.edited().base_url@ && now.inputs@[4].text@
            == now.edited().model@,
        now.active() is None ==> forall|i: int|
            0 <= i < 6 ==> (#[trigger] now.inputs@[i]).text@.len() == 0,
        now.inputs@[5].text@.len() == 0,
        was.active_id@.len() > 0 ==> now.active_id@ == was.active_id@,
        was.active_id@.len() == 0 && was.list@.len() > 0 ==> now.active_id@ == was.list@[0].id@,
        now.list == was.list,
{
}

/// What is selected can be copied out of every field but the key.
pub proof fn selected_text_can_be_copied(s: ProviderState, i: usize)
    requires
        s.focus == Some(i),
        s.inputs@[i as int].has_selection(),
    ensures
        i != 5 ==> s.copied() == Some(
            s.inputs@[i as int].text@.subrange(
                s.inputs@[i as int].selection().0,
                s.inputs@[i as int].selection().1,
            ),
        ),
        i == 5 ==> s.copied() is None,
{
}

/// A provider that is selected is the one that is edited, and a test of another one is not
/// answered any more. A field that has the keyboard is left first.
pub proof fn selected_provider_is_edited(
    s: &mut ProviderState,
    index: usize,
    fx: &mut Fx,
    step: ProviderStep,
)
    requires
        call_ensures(ProviderState::provider_select, (s, index, fx), step),
        old(s).wf(),
    ensures
        index >= old(s).list@.len() ==> *final(s) == *old(s) && step is Done,
        index < old(s).list@.len() && old(s).focus is None ==> {
            &&& final(s).active_id@ == old(s).list@[index as int].id@
            &&& final(s).list == old(s).list
            &&& final(s).test_seq != old(s).test_seq && final(s).test_request is None
            &&& final(s).status is None && final(s).codex_confirm is None
            &&& final(s).inputs@[5].text@.len() == 0
            &&& step is Done
        },
        index < old(s).list@.len() && old(s).focus is Some ==> step is Leave && final(s).active_id
            == old(s).active_id && final(s).focus is None,
{
    if index < old(s).list@.len() && old(s).focus is Some {
        let k = match step {
            ProviderStep::Leave(k) => k,
            ProviderStep::Done => None,
        };
        left_field_is_taken_over(*old(s), *final(s), k, 0);
    }
}

/// A provider that is added stands behind the others and is the one that is edited.
pub proof fn added_provider_is_edited(
    s: &mut ProviderState,
    provider: AiProvider,
    fx: &mut Fx,
    step: ProviderStep,
)
    requires
        call_ensures(ProviderState::provider_add, (s, provider, fx), step),
        old(s).focus is None,
    ensures
        step is Done,
        final(s).list@.len() == old(s).list@.len() + 1,
        final(s).list@.last() == provider,
        final(s).list@.take(old(s).list@.len() as int) == old(s).list@,
        final(s).active_id@ == provider.id@,
        final(s).save,
{
    assert(final(s).list@.take(old(s).list@.len() as int) =~= old(s).list@);
}

/// Each switch of a provider turns itself over for the one that is edited, and nothing of
/// any other; without one they do nothing.
pub proof fn provider_switches_turn_over(
    a: &mut ProviderState,
    b: &mut ProviderState,
    c: &mut ProviderState,
    fx: &mut Fx,
    fx2: &mut Fx,
    fx3: &mut Fx,
    j: int,
)
    requires
        call_ensures(ProviderState::provider_toggle_enabled, (a, fx), ()),
        call_ensures(ProviderState::provider_toggle_codex_goals, (b, fx2), ()),
        call_ensures(ProviderState::provider_toggle_codex_remote, (c, fx3), ()),
        *old(a) == *old(b),
        *old(a) == *old(c),
        0 <= j < old(a).list@.len(),
    ensures
        old(a).active() is None ==> *final(a) == *old(a) && *final(b) == *old(a) && *final(c)
            == *old(a),
        old(a).active() is Some && j != old(a).active()->0 ==> final(a).list@[j] == old(a).list@[j]
            && final(b).list@[j] == old(a).list@[j] && final(c).list@[j] == old(a).list@[j],
        old(a).active() == Some(j) ==> {
            let p = old(a).list@[j];
            &&& final(a).list@[j] == (AiProvider { enabled: !p.enabled, ..p })
            &&& final(b).list@[j] == (AiProvider { codex_goals: !p.codex_goals, ..p })
            &&& final(c).list@[j] == (AiProvider {
                codex_remote_compaction: !p.codex_remote_compaction,
                ..p
            })
            &&& final(a).save && final(b).save && final(c).save
        },
{
    id_stands_for_the_first_entry(old(a).list@, old(a).active_id@);
}

/// A key is handed to Codex only with the second click on the same provider: the first one
/// asks.
pub proof fn codex_gets_the_key_with_the_second_click(
    s: &mut ProviderState,
    language: UiLanguage,
    fx: &mut Fx,
    r: (ProviderStep, Option<AiProvider>),
)
    requires
        call_ensures(ProviderState::provider_apply_codex, (s, language, fx), r),
        old(s).wf(),
        old(s).focus is None,
    ensures
        r.1 is Some <==> old(s).active() is Some && old(s).codex_armed(),
        r.1 matches Some(p) ==> p == old(s).edited() && !final(s).codex_armed(),
        old(s).active() is Some && !old(s).codex_armed() ==> final(s).codex_armed()
            && final(s).status is Some,
        old(s).active() is None ==> *final(s) == *old(s),
        final(s).list == old(s).list && final(s).active_id == old(s).active_id,
        old(s).codex_armed() ==> old(s).codex_confirm is Some && (old(s).codex_confirm->0)@
            == old(s).active_id@,
{
}

/// A test starts for a provider that can be tested, under a new number, and is refused with
/// an error otherwise.
pub proof fn testable_provider_is_tested(
    s: &mut ProviderState,
    language: UiLanguage,
    fx: &mut Fx,
    step: ProviderStep,
)
    requires
        call_ensures(ProviderState::provider_test, (s, language, fx), step),
        old(s).wf(),
        old(s).focus is None,
        old(s).active() is Some,
    ensures
        old(s).edited().testable() ==> final(s).test_seq != old(s).test_seq && (
        final(s).test_request matches Some(q) && q.request_id == final(s).test_seq && q.provider
            == old(s).edited()) && (final(s).status matches Some((_, error)) && !error),
        !old(s).edited().testable() ==> final(s).test_seq == old(s).test_seq
            && final(s).test_request == old(s).test_request && (final(s).status matches Some((_, error))
            && error),
        final(s).list == old(s).list && step is Done,
{
}

/// Only the answer to the last test of the provider that is edited is shown, as an error
/// where it failed.
pub proof fn last_test_is_shown(
    s: &mut ProviderState,
    request_id: u64,
    provider_id: &str,
    message: &str,
    success: bool,
    elapsed_ms: u64,
    fx: &mut Fx,
)
    requires
        call_ensures(
            ProviderState::provider_test_done,
            (s, request_id, provider_id, message, success, elapsed_ms, fx),
            (),
        ),
    ensures
        request_id != old(s).test_seq || provider_id@ != old(s).active_id@ ==> *final(s) == *old(s)
            && *final(fx) == *old(fx),
        request_id == old(s).test_seq && provider_id@ == old(s).active_id@ ==> (
        final(s).status matches Some((m, error)) && (error <==> !success) && m@.take(
            message@.len() as int,
        ) == message@),
        final(s).list == old(s).list,
{
    if request_id == old(s).test_seq && provider_id@ == old(s).active_id@ {
        let m = (final(s).status->0).0;
        assert(m@.take(message@.len() as int) =~= message@);
    }
}

/// A provider that is deleted leaves the list that remains and the one that is then edited;
/// where it could not be, everything stays and the error is shown.
pub proof fn deleted_provider_is_gone(
    s: &mut ProviderState,
    removed: Result<(Vec<AiProvider>, String), String>,
    language: UiLanguage,
    fx: &mut Fx,
)
    requires
        call_ensures(ProviderState::provider_delete, (s, removed, language, fx), ()),
        old(s).active() is Some,
    ensures
        removed matches Ok((list, id)) ==> final(s).list == list && final(s).active_id == id
            && final(s).focus is None && final(s).inputs@[5].text@.len() == 0,
        removed matches Err(e) ==> final(s).list == old(s).list && final(s).active_id
            == old(s).active_id && final(s).status == Some((e, true)),
        final(s).test_seq != old(s).test_seq && final(s).test_request is None,
{
}

/// What is pasted goes to the caret of the field with the keyboard, in place of what is
/// selected.
pub proof fn pasted_text_goes_to_the_caret(s: &mut ProviderState, text: &str, fx: &mut Fx, j: int)
    requires
        call_ensures(ProviderState::provider_field_paste, (s, text, fx), ()),
        old(s).wf(),
        0 <= j < 6,
    ensures
        old(s).focus is None ==> *final(s) == *old(s),
        old(s).focus matches Some(i) ==> {
            let f = old(s).inputs@[i as int];
            let now = final(s).inputs@[i as int];
            let clean = provider_clean(i, f.text@.len() as int, text@);
            &&& j != i ==> final(s).inputs@[j] == old(s).inputs@[j]
            &&& now.text@ == f.text@.take(f.selection().0) + clean + f.text@.skip(f.selection().1)
            &&& now.caret == f.selection().0 + clean.len()
        },
        final(s).list == old(s).list,
{
    if old(s).focus is Some {
        let i = old(s).focus->0;
        let f = old(s).inputs@[i as int];
        let clean = provider_clean(i, f.text@.len() as int, text@);
        assert(f.wf());
        assert(final(s).inputs@[i as int].text@ =~= f.text@.take(f.selection().0) + clean
            + f.text@.skip(f.selection().1));
    }
}

/// A key that was stored is known for the provider that is edited, and one that was not shows
/// the error; saving tells how it went.
pub proof fn stored_key_is_known(
    s: &mut ProviderState,
    result: Result<(), String>,
    language: UiLanguage,
    t: &mut ProviderState,
    saved: Result<(), String>,
    fx: &mut Fx,
    step: ProviderStep,
)
    requires
        call_ensures(ProviderState::provider_key_stored, (s, result, language), ()),
        call_ensures(ProviderState::provider_save, (t, saved, language, fx), step),
        old(t).focus is None,
    ensures
        result matches Err(e) ==> final(s).status == Some((e, true)) && final(s).list
            == old(s).list,
        result is Ok ==> (final(s).status matches Some((_, error)) && !error),
        result is Ok && old(s).active() is Some ==> final(s).list@[old(s).active()->0]
            == (AiProvider { api_key_set: true, ..old(s).edited() }),
        result is Ok && old(s).active() is None ==> final(s).list == old(s).list,
        saved matches Err(e) ==> final(t).status == Some((e, true)),
        saved is Ok ==> (final(t).status matches Some((_, error)) && !error),
        final(t).list == old(t).list && step is Done,
{
    id_stands_for_the_first_entry(old(s).list@, old(s).active_id@);
}

/// Erasing, cutting and moving work on the field with the keyboard alone; a cut gives what a
/// copy would.
pub proof fn provider_fields_are_edited_apart(
    s: &mut ProviderState,
    fx: &mut Fx,
    t: &mut ProviderState,
    fx2: &mut Fx,
    r: Option<String>,
    u: &mut ProviderState,
    forward: bool,
    extend: bool,
    fx3: &mut Fx,
    j: int,
)
    requires
        call_ensures(ProviderState::provider_field_backspace, (s, fx), ()),
        call_ensures(ProviderState::provider_field_cut, (t, fx2), r),
        call_ensures(ProviderState::provider_field_move, (u, forward, extend, fx3), ()),
        old(s).wf(),
        old(t).wf(),
        old(u).wf(),
        0 <= j < 6,
    ensures
        old(s).focus != Some(j as usize) ==> final(s).inputs@[j] == old(s).inputs@[j],
        old(t).focus != Some(j as usize) ==> final(t).inputs@[j] == old(t).inputs@[j],
        final(u).inputs@[j].text == old(u).inputs@[j].text,
        r is Some <==> old(t).copied() is Some,
        r is None ==> *final(t) == *old(t),
        old(t).focus == Some(5usize) ==> r is None,
        final(s).list == old(s).list && final(t).list == old(t).list && final(u).list
            == old(u).list,
{
}

} // verus!
