//! Encrypted backups: what goes in, where it goes, and the passphrase card.
use crate::fx::Fx;
use crate::fields::{printable, printable_chars};
use crate::lang::UiLanguage;
use crate::modal::NebulaConfirm;
use crate::slots::{copy_chars, paste_into, set_slot, slot_texts, type_into, SlotRule};
use crate::text::{chars_of, concat3, is_control, is_control_char, text_of};
use crate::words::{trim_chars, trimmed};
use vstd::prelude::*;

verus! {

/// How many fields a destination can have.
pub const BACKUP_SLOTS: usize = 5;

/// Longest value of a destination field, in characters.
pub const BACKUP_FIELD_MAX: usize = 512;

/// Longest passphrase, in characters.
pub const PASSPHRASE_MAX: usize = 256;

/// Shortest passphrase for a remote backup, in characters.
pub const PASSPHRASE_MIN: usize = 8;

/// What a backup holds.
#[derive(Clone, Copy, Debug, PartialEq, Eq, Structural)]
pub struct BackupSelection {
    pub appearance: bool,
    pub config: bool,
    pub ssh: bool,
    pub sync: bool,
    pub assistant: bool,
    pub session: bool,
    pub directory_history: bool,
    pub command_history: bool,
    pub fonts: bool,
}

impl BackupSelection {
    /// The selection with the item of `index` switched.
    pub open spec fn toggled(self, index: usize) -> BackupSelection {
        if index == 0 {
            BackupSelection { appearance: !self.appearance, ..self }
        } else if index == 1 {
            BackupSelection { config: !self.config, ..self }
        } else if index == 2 {
            BackupSelection { ssh: !self.ssh, ..self }
        } else if index == 3 {
            BackupSelection { sync: !self.sync, ..self }
        } else if index == 4 {
            BackupSelection { assistant: !self.assistant, ..self }
        } else if index == 5 {
            BackupSelection { session: !self.session, ..self }
        } else if index == 6 {
            BackupSelection { directory_history: !self.directory_history, ..self }
        } else if index == 7 {
            BackupSelection { command_history: !self.command_history, ..self }
        } else if index == 8 {
            BackupSelection { fonts: !self.fonts, ..self }
        } else {
            self
        }
    }

    /// Switches the item of `index`.
    pub fn toggle(self, index: usize) -> (s: BackupSelection)
        ensures
            s == self.toggled(index),
    {
        if index == 0 {
            BackupSelection { appearance: !self.appearance, ..self }
        } else if index == 1 {
            BackupSelection { config: !self.config, ..self }
        } else if index == 2 {
            BackupSelection { ssh: !self.ssh, ..self }
        } else if index == 3 {
            BackupSelection { sync: !self.sync, ..self }
        } else if index == 4 {
            BackupSelection { assistant: !self.assistant, ..self }
        } else if index == 5 {
            BackupSelection { session: !self.session, ..self }
        } else if index == 6 {
            BackupSelection { directory_history: !self.directory_history, ..self }
        } else if index == 7 {
            BackupSelection { command_history: !self.command_history, ..self }
        } else if index == 8 {
            BackupSelection { fonts: !self.fonts, ..self }
        } else {
            self
        }
    }

    pub open spec fn nothing(self) -> bool {
        !self.appearance && !self.config && !self.ssh && !self.sync && !self.assistant
            && !self.session && !self.directory_history && !self.command_history && !self.fonts
    }

    pub fn is_empty(&self) -> (r: bool)
        ensures
            r == self.nothing(),
    {
        !self.appearance && !self.config && !self.ssh && !self.sync && !self.assistant
            && !self.session && !self.directory_history && !self.command_history && !self.fonts
    }
}

/// Switching an item twice gives the selection again, and switching one item leaves the
/// others.
pub proof fn toggling_a_selection_twice(s: BackupSelection, index: usize)
    ensures
        s.toggled(index).toggled(index) == s,
        index <= 8 <==> s.toggled(index) != s,
{
}

/// The items by their numbers: appearance, configuration, hosts, sync, assistant, session,
/// visited directories, commands and fonts. Switching one of them changes that one alone,
/// and a number behind the last one changes nothing.
pub proof fn switching_changes_one_item(s: BackupSelection, index: usize)
    ensures
        ({
            let t = s.toggled(index);
            &&& t.appearance != s.appearance <==> index == 0
            &&& t.config != s.config <==> index == 1
            &&& t.ssh != s.ssh <==> index == 2
            &&& t.sync != s.sync <==> index == 3
            &&& t.assistant != s.assistant <==> index == 4
            &&& t.session != s.session <==> index == 5
            &&& t.directory_history != s.directory_history <==> index == 6
            &&& t.command_history != s.command_history <==> index == 7
            &&& t.fonts != s.fonts <==> index == 8
        }),
{
}

/// A selection is empty exactly while none of its items is on: switching any item of an
/// empty one fills it.
pub proof fn switched_item_fills_a_selection(s: BackupSelection, index: usize)
    ensures
        s.nothing() && index <= 8 ==> !s.toggled(index).nothing(),
        s.appearance || s.config || s.ssh || s.sync || s.assistant || s.session
            || s.directory_history || s.command_history || s.fonts <==> !s.nothing(),
{
}

/// How a remote backup travels.
#[derive(Clone, Copy, Debug, PartialEq, Eq, Structural)]
pub enum BackupProtocol {
    WebDav,
    S3,
    Other,
}

/// A destination: its protocol, how many fields describe it and which of them is secret.
#[derive(Clone, Copy, Debug, PartialEq, Eq, Structural)]
pub struct BackupTarget {
    pub protocol: BackupProtocol,
    pub field_count: usize,
    pub secret_field: Option<usize>,
}

/// A backup action that waits for its passphrase.
#[derive(Debug)]
pub enum BackupOperation {
    Export(String),
    Restore(String),
    RemotePush,
    RemotePull,
}

/// A remote action that is ready to run in the background.
#[derive(Debug)]
pub struct RemoteBackupRequest {
    pub upload: bool,
    pub passphrase: String,
    pub selection: BackupSelection,
}

/// A backup of this machine that is ready to be written or read back.
#[derive(Debug)]
pub enum LocalBackup {
    Export { path: String, passphrase: String, selection: BackupSelection },
    Restore { path: String, passphrase: String },
}

/// What leaving a destination field asks for.
#[derive(Debug)]
pub enum BackupCommit {
    Nothing,
    StoreWebDavPassword { user: String, secret: String },
    StoreS3Secret { access_key: String, secret: String },
    SaveSlot { index: usize, value: String },
}

/// The backup page and the passphrase card.
#[derive(Debug)]
pub struct BackupState {
    pub selection: BackupSelection,
    pub target: BackupTarget,
    pub inputs: Vec<Vec<char>>,
    pub focus: Option<usize>,
    pub secret_set: bool,
    pub status: Option<(String, bool)>,
    pub status_remote: bool,
    pub busy: bool,
    pub operation: Option<BackupOperation>,
    pub passphrase: Vec<char>,
    pub passphrase_selected: bool,
}

impl BackupState {
    /// The focused field exists, a described destination has its fields, and the passphrase
    /// is not over its limit.
    pub open spec fn wf(self) -> bool {
        &&& self.inputs@.len() == BACKUP_SLOTS
        &&& self.target.field_count <= BACKUP_SLOTS
        &&& self.focus matches Some(i) ==> i < BACKUP_SLOTS
        &&& self.passphrase@.len() <= PASSPHRASE_MAX
    }

    /// The message of the page.
    pub open spec fn says(self, text: Seq<char>, error: bool) -> bool {
        self.status matches Some((m, e)) && m@ == text && e == error
    }

    /// The state with nothing typed and nothing selected.
    pub open spec fn passphrase_gone(self) -> bool {
        self.passphrase@.len() == 0 && !self.passphrase_selected
    }
}

/// The texts of the fields for what is stored of a destination: empty ones where nothing is.
pub open spec fn stored_texts(stored: Seq<Option<String>>) -> Seq<Seq<char>> {
    Seq::new(
        BACKUP_SLOTS as nat,
        |i: int|
            match stored[i] {
                Some(value) if i < stored.len() => value@,
                _ => Seq::<char>::empty(),
            },
    )
}

/// What the field `index` takes: white space goes into the secret one only.
pub open spec fn field_rule(target: BackupTarget, index: usize) -> SlotRule {
    SlotRule { max: BACKUP_FIELD_MAX, spaces: target.secret_field == Some(index) }
}

impl BackupState {
    /// `now` is this state once the focused field was left, and `c` what its value asks
    /// for.
    pub open spec fn field_left(self, now: BackupState, c: BackupCommit) -> bool {
        match self.focus {
            None => now == self && c is Nothing,
            Some(i) => {
                let secret = self.target.secret_field == Some(i);
                let value = self.inputs@[i as int]@;
                let after = slot_texts(now.inputs@);
                &&& now == (BackupState { focus: None, inputs: now.inputs, ..self })
                &&& after == (if secret {
                    slot_texts(self.inputs@).update(i as int, Seq::<char>::empty())
                } else {
                    slot_texts(self.inputs@)
                })
                &&& if !secret {
                    c matches BackupCommit::SaveSlot { index, value: v } && index == i && v@
                        == trimmed(value)
                } else if trimmed(value).len() == 0 {
                    c is Nothing
                } else {
                    match self.target.protocol {
                        BackupProtocol::WebDav => c matches BackupCommit::StoreWebDavPassword {
                            user,
                            secret: s,
                        } && s@ == value && user@ == trimmed(after[1]),
                        BackupProtocol::S3 => c matches BackupCommit::StoreS3Secret {
                            access_key,
                            secret: s,
                        } && s@ == value && access_key@ == trimmed(after[3]),
                        BackupProtocol::Other => c is Nothing,
                    }
                }
            },
        }
    }

    /// `now` is this state with `text` in the field `i`.
    pub open spec fn field_set(self, now: BackupState, i: usize, text: Seq<char>) -> bool {
        &&& now == (BackupState { inputs: now.inputs, ..self })
        &&& slot_texts(now.inputs@) == slot_texts(self.inputs@).update(i as int, text)
    }

    /// Whether the focused field takes `ch` now.
    pub open spec fn takes(self, ch: char) -> bool {
        self.focus matches Some(i) && field_rule(self.target, i).takes(ch)
            && self.inputs@[i as int]@.len() < BACKUP_FIELD_MAX
    }

    fn set_field(&mut self, index: usize, text: Vec<char>)
        requires
            old(self).wf(),
            index < old(self).inputs@.len(),
        ensures
            final(self).wf(),
            old(self).field_set(*final(self), index, text@),
    {
        set_slot(&mut self.inputs, index, text);
    }

    fn leave_field(&mut self) -> (c: BackupCommit)
        requires
            old(self).wf(),
        ensures
            final(self).wf(),
            old(self).field_left(*final(self), c),
    {
        let index: usize = match self.focus {
            Some(i) => i,
            None => {
                return BackupCommit::Nothing;
            },
        };
        self.focus = None;
        let secret: bool = match self.target.secret_field {
            Some(s) => s == index,
            None => false,
        };
        if !secret {
            let value = trim_chars(&self.inputs[index]);
            return BackupCommit::SaveSlot { index, value };
        }
        let typed = text_of(&self.inputs[index]);
        let bare = trim_chars(&self.inputs[index]);
        let empty: Vec<char> = Vec::new();
        proof {
            assert(empty@ =~= Seq::<char>::empty());
        }
        self.set_field(index, empty);
        if bare.as_str().is_empty() {
            return BackupCommit::Nothing;
        }
        match self.target.protocol {
            BackupProtocol::WebDav => BackupCommit::StoreWebDavPassword {
                user: trim_chars(&self.inputs[1]),
                secret: typed,
            },
            BackupProtocol::S3 => BackupCommit::StoreS3Secret {
                access_key: trim_chars(&self.inputs[3]),
                secret: typed,
            },
            BackupProtocol::Other => BackupCommit::Nothing,
        }
    }

    fn rule(&self, index: usize) -> (r: SlotRule)
        ensures
            r == field_rule(self.target, index),
    {
        let secret: bool = match self.target.secret_field {
            Some(s) => s == index,
            None => false,
        };
        SlotRule { max: BACKUP_FIELD_MAX, spaces: secret }
    }

    fn type_char(&mut self, ch: char) -> (r: bool)
        requires
            old(self).wf(),
        ensures
            final(self).wf(),
            r == old(self).takes(ch),
            !r ==> *final(self) == *old(self),
            r ==> old(self).field_set(
                *final(self),
                old(self).focus->0,
                old(self).inputs@[old(self).focus->0 as int]@.push(ch),
            ),
    {
        let index: usize = match self.focus {
            Some(i) => i,
            None => {
                return false;
            },
        };
        let mut field = copy_chars(&self.inputs[index]);
        let rule: SlotRule = self.rule(index);
        if !type_into(&mut field, rule, ch) {
            return false;
        }
        self.set_field(index, field);
        true
    }

    fn paste(&mut self, text: &str) -> (changed: bool)
        requires
            old(self).wf(),
            old(self).focus is Some,
        ensures
            final(self).wf(),
            ({
                let i = old(self).focus->0;
                let before = old(self).inputs@[i as int]@;
                let after = field_rule(old(self).target, i).pasted(before, text@);
                &&& old(self).field_set(*final(self), i, after)
                &&& changed == (after != before)
            }),
    {
        let index: usize = match self.focus {
            Some(i) => i,
            None => {
                return false;
            },
        };
        let mut field = copy_chars(&self.inputs[index]);
        let rule: SlotRule = self.rule(index);
        let changed: bool = paste_into(&mut field, rule, text);
        self.set_field(index, field);
        changed
    }

    fn erase_char(&mut self) -> (r: bool)
        requires
            old(self).wf(),
        ensures
            final(self).wf(),
            r == (old(self).focus matches Some(i) && old(self).inputs@[i as int]@.len() > 0),
            !r ==> *final(self) == *old(self),
            r ==> old(self).field_set(
                *final(self),
                old(self).focus->0,
                old(self).inputs@[old(self).focus->0 as int]@.drop_last(),
            ),
    {
        let index: usize = match self.focus {
            Some(i) => i,
            None => {
                return false;
            },
        };
        if self.inputs[index].len() == 0 {
            return false;
        }
        let mut field = copy_chars(&self.inputs[index]);
        field.pop();
        self.set_field(index, field);
        true
    }

    fn report(&mut self, message: String, error: bool, remote: bool)
        ensures
            *final(self) == (BackupState {
                status: Some((message, error)),
                status_remote: remote,
                ..*old(self)
            }),
    {
        self.status = Some((message, error));
        self.status_remote = remote;
    }

    /// `now` is this state with `operation` waiting for its passphrase.
    pub open spec fn asking(self, now: BackupState, operation: BackupOperation) -> bool {
        &&& now == (BackupState {
            operation: Some(operation),
            passphrase: now.passphrase,
            passphrase_selected: false,
            status: None,
            ..self
        })
        &&& now.passphrase_gone()
    }

    fn ask(&mut self, operation: BackupOperation)
        ensures
            old(self).asking(*final(self), operation),
    {
        self.operation = Some(operation);
        self.passphrase.clear();
        self.passphrase_selected = false;
        self.status = None;
    }

    fn forget_passphrase(&mut self)
        ensures
            *final(self) == (BackupState {
                passphrase: final(self).passphrase,
                passphrase_selected: false,
                ..*old(self)
            }),
            final(self).passphrase_gone(),
    {
        self.passphrase.clear();
        self.passphrase_selected = false;
    }

    /// `now` is this state with another passphrase on the card.
    pub open spec fn retyped(self, now: BackupState, passphrase: Seq<char>) -> bool {
        &&& now == (BackupState {
            passphrase: now.passphrase,
            passphrase_selected: false,
            status: None,
            ..self
        })
        &&& now.passphrase@ == passphrase
    }

    fn type_passphrase(&mut self, character: char) -> (r: bool)
        requires
            old(self).wf(),
        ensures
            final(self).wf(),
            r == (!is_control_char(character) && (old(self).passphrase_selected
                || old(self).passphrase@.len() < PASSPHRASE_MAX)),
            !r ==> *final(self) == *old(self),
            r ==> old(self).retyped(
                *final(self),
                if old(self).passphrase_selected {
                    seq![character]
                } else {
                    old(self).passphrase@.push(character)
                },
            ),
    {
        let replacing: bool = self.passphrase_selected;
        if is_control(character) || !(replacing || self.passphrase.len() < PASSPHRASE_MAX) {
            return false;
        }
        if replacing {
            self.forget_passphrase();
        }
        self.passphrase.push(character);
        self.status = None;
        proof {
            if replacing {
                assert(self.passphrase@ =~= seq![character]);
            }
        }
        true
    }

    /// The passphrase once `text` was pasted.
    pub open spec fn pasted_passphrase(self, text: Seq<char>) -> Seq<char> {
        let base = if self.passphrase_selected {
            Seq::<char>::empty()
        } else {
            self.passphrase@
        };
        let typed = printable(text);
        let room = PASSPHRASE_MAX - base.len();
        base + (if typed.len() <= room {
            typed
        } else {
            typed.take(room)
        })
    }

    fn paste_passphrase(&mut self, text: &str)
        requires
            old(self).wf(),
        ensures
            final(self).wf(),
            old(self).retyped(*final(self), old(self).pasted_passphrase(text@)),
    {
        if self.passphrase_selected {
            self.forget_passphrase();
        }
        let ghost base = self.passphrase@;
        let typed = printable_chars(text);
        let room: usize = PASSPHRASE_MAX - self.passphrase.len();
        let take: usize = if typed.len() <= room {
            typed.len()
        } else {
            room
        };
        let mut i: usize = 0;
        proof {
            assert(base + typed@.take(0) =~= base);
            if old(self).passphrase_selected {
                assert(base =~= Seq::<char>::empty());
            }
        }
        let ghost start = *self;
        while i < take
            invariant
                i <= take <= typed@.len(),
                take <= PASSPHRASE_MAX - base.len(),
                self.passphrase@ == base + typed@.take(i as int),
                *self == (BackupState { passphrase: self.passphrase, ..start }),
            decreases take - i,
        {
            self.passphrase.push(typed[i]);
            proof {
                assert(self.passphrase@ =~= base + typed@.take(i + 1));
            }
            i += 1;
        }
        proof {
            if take == typed@.len() {
                assert(typed@.take(take as int) =~= typed@);
            }
        }
        self.status = None;
    }

    fn erase_passphrase(&mut self)
        requires
            old(self).wf(),
        ensures
            final(self).wf(),
            old(self).retyped(
                *final(self),
                if old(self).passphrase_selected || old(self).passphrase@.len() == 0 {
                    Seq::<char>::empty()
                } else {
                    old(self).passphrase@.drop_last()
                },
            ),
    {
        if self.passphrase_selected {
            self.forget_passphrase();
        } else {
            self.passphrase.pop();
        }
        self.status = None;
        proof {
            if old(self).passphrase_selected || old(self).passphrase@.len() == 0 {
                assert(self.passphrase@ =~= Seq::<char>::empty());
            }
        }
    }

    /// The end of an answered card: the message, and the passphrase gone.
    pub open spec fn answered(self, now: BackupState, done: bool, busy: bool, remote: bool) -> bool {
        &&& now == (BackupState {
            operation: if done {
                None
            } else {
                self.operation
            },
            busy,
            status: now.status,
            status_remote: remote,
            passphrase: now.passphrase,
            passphrase_selected: false,
            ..self
        })
        &&& now.passphrase_gone()
    }

    fn answer(&mut self, done: bool, busy: bool, remote: bool, message: String, error: bool)
        ensures
            old(self).answered(*final(self), done, busy, remote),
            final(self).says(message@, error),
    {
        if done {
            self.operation = None;
        }
        self.busy = busy;
        self.report(message, error, remote);
        self.forget_passphrase();
    }

    /// Whether the waiting operation is a remote one, and whether it uploads.
    pub open spec fn remote_kind(self) -> Option<bool> {
        match self.operation {
            Some(BackupOperation::RemotePush) => Some(true),
            Some(BackupOperation::RemotePull) => Some(false),
            _ => None,
        }
    }

    fn remote_upload(&self) -> (r: Option<bool>)
        ensures
            r == self.remote_kind(),
    {
        match &self.operation {
            Some(BackupOperation::RemotePush) => Some(true),
            Some(BackupOperation::RemotePull) => Some(false),
            _ => None,
        }
    }
}

/// The message while a remote action runs.
pub open spec fn running_message(language: UiLanguage, upload: bool) -> Seq<char> {
    if upload {
        language.picked("备份上传中…"@, "Uploading backup…"@)
    } else {
        language.picked("正在取回远端备份…"@, "Fetching remote backup…"@)
    }
}

/// The message once a file was written or read back.
pub open spec fn finished_message(language: UiLanguage, restoring: bool) -> Seq<char> {
    if restoring {
        language.picked(
            "备份已恢复，重启后应用全部设置"@,
            "Backup restored; restart to apply all settings"@,
        )
    } else {
        language.picked("备份已导出"@, "Backup exported"@)
    }
}

impl BackupState {
    /// Switches one item of the backup; an index past the last one changes nothing.
    pub fn toggle_backup_selection(&mut self, index: usize, fx: &mut Fx)
        ensures
            *final(self) == (BackupState {
                selection: old(self).selection.toggled(index),
                ..*old(self)
            }),
            *final(fx) == (if index <= 8 {
                old(fx).marked()
            } else {
                *old(fx)
            }),
    {
        if index > 8 {
            return;
        }
        self.selection = self.selection.toggle(index);
        fx.mark();
    }

    pub fn backup_protocol(&self) -> (p: BackupProtocol)
        ensures
            p == self.target.protocol,
    {
        self.target.protocol
    }

    /// `now` is this state with the stored destination.
    pub open spec fn loaded(
        self,
        now: BackupState,
        target: BackupTarget,
        stored: Seq<Option<String>>,
        secret_set: bool,
    ) -> bool {
        &&& now == (BackupState { target, inputs: now.inputs, secret_set, focus: None, ..self })
        &&& slot_texts(now.inputs@) == stored_texts(stored)
    }

    /// Takes over the stored destination: its fields where they have a stored value,
    /// empty ones elsewhere. Secrets are never read back.
    pub fn load_backup_remote_state(
        &mut self,
        target: BackupTarget,
        stored: &Vec<Option<String>>,
        secret_set: bool,
    )
        requires
            target.field_count <= BACKUP_SLOTS,
            old(self).passphrase@.len() <= PASSPHRASE_MAX,
        ensures
            final(self).wf(),
            old(self).loaded(*final(self), target, stored@, secret_set),
    {
        let mut inputs: Vec<Vec<char>> = Vec::new();
        let mut i: usize = 0;
        while i < BACKUP_SLOTS
            invariant
                i <= BACKUP_SLOTS,
                inputs@.len() == i,
                forall|k: int| 0 <= k < i ==> (#[trigger] inputs@[k])@ == stored_texts(stored@)[k],
            decreases BACKUP_SLOTS - i,
        {
            let mut text: Vec<char> = Vec::new();
            if i < stored.len() {
                if let Some(value) = &stored[i] {
                    text = chars_of(value.as_str());
                }
            }
            inputs.push(text);
            i += 1;
        }
        proof {
            assert(slot_texts(inputs@) =~= stored_texts(stored@));
        }
        self.target = target;
        self.inputs = inputs;
        self.secret_set = secret_set;
        self.focus = None;
    }

    /// Takes the focus off the field and says what its value asks for. A secret leaves
    /// the field for the credential store; an empty one asks for nothing.
    pub fn commit_backup_remote_field(&mut self, fx: &mut Fx) -> (c: BackupCommit)
        requires
            old(self).wf(),
        ensures
            final(self).wf(),
            old(self).field_left(*final(self), c),
            *final(fx) == (if old(self).focus is Some {
                old(fx).marked()
            } else {
                *old(fx)
            }),
    {
        if self.focus.is_none() {
            return BackupCommit::Nothing;
        }
        fx.mark();
        self.leave_field()
    }

    /// Tells that something about the remote destination failed.
    pub fn remote_failed(&mut self, error: String)
        ensures
            *final(self) == (BackupState {
                status: Some((error, true)),
                status_remote: true,
                ..*old(self)
            }),
    {
        self.report(error, true, true);
    }

    /// Takes over how storing a secret went.
    pub fn backup_secret_stored(&mut self, result: Result<(), String>)
        ensures
            match result {
                Ok(_) => *final(self) == (BackupState { secret_set: true, ..*old(self) }),
                Err(e) => *final(self) == (BackupState {
                    status: Some((e, true)),
                    status_remote: true,
                    ..*old(self)
                }),
            },
    {
        match result {
            Ok(_) => {
                self.secret_set = true;
            },
            Err(e) => {
                self.report(e, true, true);
            },
        }
    }

    /// Focuses a destination field. The field that had the focus must have been left
    /// before; an index past the fields goes to the last one.
    pub fn focus_backup_remote_field(&mut self, index: usize, fx: &mut Fx)
        requires
            old(self).wf(),
            old(self).focus is None || old(self).focus == Some(index),
        ensures
            final(self).wf(),
            ({
                let count = old(self).target.field_count;
                if old(self).focus is Some || count == 0 {
                    *final(self) == *old(self) && *final(fx) == *old(fx)
                } else {
                    &&& *final(fx) == old(fx).marked()
                    &&& *final(self) == (BackupState {
                        focus: Some(
                            if index < count {
                                index
                            } else {
                                (count - 1) as usize
                            },
                        ),
                        ..*old(self)
                    })
                }
            }),
    {
        let count: usize = self.target.field_count;
        if self.focus.is_some() || count == 0 {
            return;
        }
        self.focus = Some(
            if index < count {
                index
            } else {
                count - 1
            },
        );
        fx.mark();
    }

    /// Types a character into the focused field. White space goes into the secret field
    /// only, and no field grows past its limit.
    pub fn backup_remote_field_push(&mut self, ch: char, fx: &mut Fx)
        requires
            old(self).wf(),
        ensures
            final(self).wf(),
            !old(self).takes(ch) ==> *final(self) == *old(self) && *final(fx) == *old(fx),
            old(self).takes(ch) ==> {
                let i = old(self).focus->0;
                &&& *final(fx) == old(fx).marked()
                &&& old(self).field_set(*final(self), i, old(self).inputs@[i as int]@.push(ch))
            },
    {
        if self.type_char(ch) {
            fx.mark();
        }
    }

    /// Types a text into the focused field, character by character.
    pub fn backup_remote_field_paste(&mut self, text: &str, fx: &mut Fx)
        requires
            old(self).wf(),
        ensures
            final(self).wf(),
            old(self).focus is None ==> *final(self) == *old(self) && *final(fx) == *old(fx),
            old(self).focus matches Some(i) ==> {
                let before = old(self).inputs@[i as int]@;
                let after = field_rule(old(self).target, i).pasted(before, text@);
                &&& old(self).field_set(*final(self), i, after)
                &&& *final(fx) == (if after == before {
                    *old(fx)
                } else {
                    old(fx).marked()
                })
            },
    {
        if self.focus.is_none() {
            return;
        }
        if self.paste(text) {
            fx.mark();
        }
    }

    /// Erases the last character of the focused field.
    pub fn backup_remote_field_backspace(&mut self, fx: &mut Fx)
        requires
            old(self).wf(),
        ensures
            final(self).wf(),
            match old(self).focus {
                Some(i) if old(self).inputs@[i as int]@.len() > 0 => {
                    &&& *final(fx) == old(fx).marked()
                    &&& old(self).field_set(
                        *final(self),
                        i,
                        old(self).inputs@[i as int]@.drop_last(),
                    )
                },
                _ => *final(self) == *old(self) && *final(fx) == *old(fx),
            },
    {
        if self.erase_char() {
            fx.mark();
        }
    }

    /// Drops what was typed into the focused field: it shows the stored value again,
    /// nothing where there is none.
    pub fn cancel_backup_remote_field(&mut self, stored: &str, fx: &mut Fx)
        requires
            old(self).wf(),
        ensures
            final(self).wf(),
            old(self).focus is None ==> *final(self) == *old(self) && *final(fx) == *old(fx),
            old(self).focus matches Some(i) ==> {
                &&& *final(fx) == old(fx).marked()
                &&& (BackupState { focus: None, ..*old(self) }).field_set(
                    *final(self),
                    i,
                    stored@,
                )
            },
    {
        if let Some(index) = self.focus {
            self.focus = None;
            self.set_field(index, crate::text::chars_of(stored));
            fx.mark();
        }
    }

    /// The card that asks for the passphrase comes up.
    pub open spec fn asks_passphrase(
        self,
        now: BackupState,
        operation: BackupOperation,
        restoring: bool,
        confirm: Option<NebulaConfirm>,
    ) -> bool {
        &&& self.asking(now, operation)
        &&& confirm == Some(NebulaConfirm::BackupPassphrase { restoring })
    }

    fn ask_passphrase(
        &mut self,
        operation: BackupOperation,
        restoring: bool,
        confirm: &mut Option<NebulaConfirm>,
        fx: &mut Fx,
    )
        ensures
            old(self).asks_passphrase(*final(self), operation, restoring, *final(confirm)),
            *final(fx) == old(fx).redrawn(),
    {
        self.ask(operation);
        *confirm = Some(NebulaConfirm::BackupPassphrase { restoring });
        fx.ask_redraw();
    }

    /// The button for a remote backup or restore, once the focused field was left and
    /// the stored destination was checked. Nothing happens while an action runs; an
    /// upload of nothing and a bad destination are refused; else the passphrase is asked.
    pub fn start_backup_remote(
        &mut self,
        upload: bool,
        validation: Result<(), String>,
        language: UiLanguage,
        confirm: &mut Option<NebulaConfirm>,
        fx: &mut Fx,
    )
        requires
            old(self).busy || old(self).focus is None,
        ensures
            old(self).busy ==> *final(self) == *old(self) && *final(confirm) == *old(confirm)
                && *final(fx) == *old(fx),
            !old(self).busy ==> *final(fx) == old(fx).redrawn(),
            !old(self).busy && upload && old(self).selection.nothing() ==> {
                &&& *final(confirm) == *old(confirm)
                &&& *final(self) == (BackupState {
                    status: final(self).status,
                    status_remote: true,
                    ..*old(self)
                })
                &&& final(self).says(
                    language.picked("至少选择一项备份内容"@, "Select at least one backup item"@),
                    true,
                )
            },
            !old(self).busy && !(upload && old(self).selection.nothing()) ==> match validation {
                Err(e) => {
                    &&& *final(confirm) == *old(confirm)
                    &&& *final(self) == (BackupState {
                        status: Some((e, true)),
                        status_remote: true,
                        ..*old(self)
                    })
                },
                Ok(_) => (BackupState { status_remote: true, ..*old(self) }).asks_passphrase(
                    *final(self),
                    if upload {
                        BackupOperation::RemotePush
                    } else {
                        BackupOperation::RemotePull
                    },
                    !upload,
                    *final(confirm),
                ),
            },
    {
        if self.busy {
            return;
        }
        if upload && self.selection.is_empty() {
            let message = language.pick(
                "至少选择一项备份内容",
                "Select at least one backup item",
            ).to_owned();
            self.report(message, true, true);
            fx.ask_redraw();
            return;
        }
        if let Err(e) = validation {
            self.report(e, true, true);
            fx.ask_redraw();
            return;
        }
        let operation = if upload {
            BackupOperation::RemotePush
        } else {
            BackupOperation::RemotePull
        };
        self.status_remote = true;
        self.ask_passphrase(operation, !upload, confirm, fx);
    }

    /// Takes over the end of a remote action.
    pub fn backup_remote_done(&mut self, message: String, error: bool, fx: &mut Fx)
        ensures
            *final(self) == (BackupState {
                busy: false,
                status: Some((message, error)),
                status_remote: true,
                ..*old(self)
            }),
            *final(fx) == old(fx).touched(),
    {
        self.busy = false;
        self.report(message, error, true);
        fx.touch();
    }

    /// Whether the export button may ask for a file: it refuses an export of nothing.
    pub fn backup_export_ready(&mut self, language: UiLanguage, fx: &mut Fx) -> (r: bool)
        ensures
            r == !old(self).selection.nothing(),
            r ==> *final(self) == *old(self) && *final(fx) == *old(fx),
            !r ==> {
                &&& *final(fx) == old(fx).redrawn()
                &&& *final(self) == (BackupState {
                    status: final(self).status,
                    status_remote: false,
                    ..*old(self)
                })
                &&& final(self).says(
                    language.picked("至少选择一项备份内容"@, "Select at least one backup item"@),
                    true,
                )
            },
    {
        if self.selection.is_empty() {
            let message = language.pick(
                "至少选择一项备份内容",
                "Select at least one backup item",
            ).to_owned();
            self.report(message, true, false);
            fx.ask_redraw();
            return false;
        }
        true
    }

    /// Asks for the passphrase of an export to the chosen file; without a file nothing
    /// happens.
    pub fn start_backup_export(
        &mut self,
        path: Option<String>,
        confirm: &mut Option<NebulaConfirm>,
        fx: &mut Fx,
    )
        ensures
            path is None ==> *final(self) == *old(self) && *final(confirm) == *old(confirm)
                && *final(fx) == *old(fx),
            path matches Some(p) ==> {
                &&& old(self).asks_passphrase(
                    *final(self),
                    BackupOperation::Export(p),
                    false,
                    *final(confirm),
                )
                &&& *final(fx) == old(fx).redrawn()
            },
    {
        if let Some(p) = path {
            self.ask_passphrase(BackupOperation::Export(p), false, confirm, fx);
        }
    }

    /// Asks for the passphrase of the chosen backup file.
    pub fn start_backup_restore(
        &mut self,
        path: Option<String>,
        confirm: &mut Option<NebulaConfirm>,
        fx: &mut Fx,
    )
        ensures
            path is None ==> *final(self) == *old(self) && *final(confirm) == *old(confirm)
                && *final(fx) == *old(fx),
            path matches Some(p) ==> {
                &&& old(self).asks_passphrase(
                    *final(self),
                    BackupOperation::Restore(p),
                    true,
                    *final(confirm),
                )
                &&& *final(fx) == old(fx).redrawn()
            },
    {
        if let Some(p) = path {
            self.ask_passphrase(BackupOperation::Restore(p), true, confirm, fx);
        }
    }

    /// Types a character into the passphrase. It replaces a selected passphrase, and
    /// nothing goes past the limit.
    pub fn backup_passphrase_push(&mut self, character: char, fx: &mut Fx)
        requires
            old(self).wf(),
        ensures
            final(self).wf(),
            *final(fx) == old(fx).redrawn(),
            ({
                let was = *old(self);
                if !is_control_char(character) && (was.passphrase_selected
                    || was.passphrase@.len() < PASSPHRASE_MAX) {
                    was.retyped(
                        *final(self),
                        if was.passphrase_selected {
                            seq![character]
                        } else {
                            was.passphrase@.push(character)
                        },
                    )
                } else {
                    *final(self) == was
                }
            }),
    {
        self.type_passphrase(character);
        fx.ask_redraw();
    }

    /// Pastes into the passphrase, over a selected one, up to the limit.
    pub fn backup_passphrase_paste(&mut self, text: &str, fx: &mut Fx)
        requires
            old(self).wf(),
        ensures
            final(self).wf(),
            *final(fx) == old(fx).redrawn(),
            old(self).retyped(*final(self), old(self).pasted_passphrase(text@)),
    {
        self.paste_passphrase(text);
        fx.ask_redraw();
    }

    /// Erases the last character, or all of a selected passphrase.
    pub fn backup_passphrase_backspace(&mut self, fx: &mut Fx)
        requires
            old(self).wf(),
        ensures
            final(self).wf(),
            *final(fx) == old(fx).redrawn(),
            old(self).retyped(
                *final(self),
                if old(self).passphrase_selected || old(self).passphrase@.len() == 0 {
                    Seq::<char>::empty()
                } else {
                    old(self).passphrase@.drop_last()
                },
            ),
    {
        self.erase_passphrase();
        fx.ask_redraw();
    }

    /// Selects the passphrase; an empty one selects nothing.
    pub fn backup_passphrase_select_all(&mut self, fx: &mut Fx)
        ensures
            *final(self) == (BackupState {
                passphrase_selected: old(self).passphrase@.len() > 0,
                ..*old(self)
            }),
            *final(fx) == old(fx).redrawn(),
    {
        self.passphrase_selected = self.passphrase.len() > 0;
        fx.ask_redraw();
    }

    /// The export or restore that the passphrase card stands for: the chosen file, the
    /// passphrase as it was typed and, for an export, what goes into it. A remote action is
    /// none of them.
    pub fn local_backup(&self) -> (r: Option<LocalBackup>)
        ensures
            match self.operation {
                Some(BackupOperation::Export(p)) => r matches Some(
                    LocalBackup::Export { path, passphrase, selection },
                ) && path == p && passphrase@ == self.passphrase@ && selection == self.selection,
                Some(BackupOperation::Restore(p)) => r matches Some(
                    LocalBackup::Restore { path, passphrase },
                ) && path == p && passphrase@ == self.passphrase@,
                _ => r is None,
            },
    {
        match &self.operation {
            Some(BackupOperation::Export(p)) => Some(
                LocalBackup::Export {
                    path: p.clone(),
                    passphrase: text_of(&self.passphrase),
                    selection: self.selection,
                },
            ),
            Some(BackupOperation::Restore(p)) => Some(
                LocalBackup::Restore { path: p.clone(), passphrase: text_of(&self.passphrase) },
            ),
            _ => None,
        }
    }

    /// Answers the passphrase card. For an export or a restore, `local` is how the one of
    /// `local_backup` went: a success closes the card, a failure keeps it open. A remote action is handed back
    /// to be run, unless its passphrase is too short. Either way the passphrase is gone
    /// from the card.
    pub fn complete_backup_operation(
        &mut self,
        local: Result<(), String>,
        language: UiLanguage,
        confirm: &mut Option<NebulaConfirm>,
        fx: &mut Fx,
    ) -> (r: Option<RemoteBackupRequest>)
        ensures
            ({
                let was = *old(self);
                let now = *final(self);
                let short = was.passphrase@.len() < PASSPHRASE_MIN;
                let remote = was.remote_kind();
                &&& was.operation is None ==> now == was && r is None
                    && *final(confirm) == *old(confirm) && *final(fx) == *old(fx)
                &&& was.operation is Some ==> *final(fx) == old(fx).redrawn()
                &&& remote is Some && short ==> {
                    &&& r is None
                    &&& *final(confirm) == *old(confirm)
                    &&& was.answered(now, false, was.busy, true)
                    &&& now.says(
                        language.picked(
                            "备份操作失败: 口令至少 8 个字符"@,
                            "Backup operation failed: passphrase must be at least 8 characters"@,
                        ),
                        true,
                    )
                }
                &&& remote is Some && !short ==> {
                    &&& *final(confirm) is None
                    &&& was.answered(now, true, true, true)
                    &&& now.says(running_message(language, remote->0), false)
                    &&& r matches Some(q) && q.upload == remote->0 && q.passphrase@
                        == was.passphrase@ && q.selection == was.selection
                }
                &&& was.operation is Some && remote is None ==> r is None && match local {
                    Ok(_) => {
                        &&& *final(confirm) is None
                        &&& was.answered(now, true, was.busy, false)
                        &&& now.says(
                            finished_message(
                                language,
                                *old(confirm) == Some(
                                    NebulaConfirm::BackupPassphrase { restoring: true },
                                ),
                            ),
                            false,
                        )
                    },
                    Err(e) => {
                        &&& *final(confirm) == *old(confirm)
                        &&& was.answered(now, false, was.busy, false)
                        &&& now.says(
                            language.picked("备份操作失败"@, "Backup operation failed"@) + ": "@
                                + e@,
                            true,
                        )
                    },
                }
            }),
    {
        if self.operation.is_none() {
            return None;
        }
        let busy: bool = self.busy;
        if let Some(upload) = self.remote_upload() {
            if self.passphrase.len() < PASSPHRASE_MIN {
                let message = language.pick(
                    "备份操作失败: 口令至少 8 个字符",
                    "Backup operation failed: passphrase must be at least 8 characters",
                ).to_owned();
                self.answer(false, busy, true, message, true);
                fx.ask_redraw();
                return None;
            }
            let passphrase = text_of(&self.passphrase);
            let selection: BackupSelection = self.selection;
            let message = if upload {
                language.pick("备份上传中…", "Uploading backup…")
            } else {
                language.pick("正在取回远端备份…", "Fetching remote backup…")
            }.to_owned();
            self.answer(true, true, true, message, false);
            *confirm = None;
            fx.ask_redraw();
            return Some(RemoteBackupRequest { upload, passphrase, selection });
        }
        match local {
            Ok(_) => {
                let restoring: bool = match &*confirm {
                    Some(NebulaConfirm::BackupPassphrase { restoring }) => *restoring,
                    _ => false,
                };
                let message = if restoring {
                    language.pick(
                        "备份已恢复，重启后应用全部设置",
                        "Backup restored; restart to apply all settings",
                    )
                } else {
                    language.pick("备份已导出", "Backup exported")
                }.to_owned();
                self.answer(true, busy, false, message, false);
                *confirm = None;
            },
            Err(e) => {
                let message = concat3(
                    language.pick("备份操作失败", "Backup operation failed"),
                    ": ",
                    e.as_str(),
                );
                self.answer(false, busy, false, message, true);
            },
        }
        fx.ask_redraw();
        None
    }

    /// Closes the passphrase card without doing anything.
    pub fn cancel_backup_operation(&mut self, confirm: &mut Option<NebulaConfirm>, fx: &mut Fx)
        ensures
            *final(confirm) is None,
            *final(self) == (BackupState {
                operation: None,
                passphrase: final(self).passphrase,
                passphrase_selected: false,
                ..*old(self)
            }),
            final(self).passphrase_gone(),
            *final(fx) == old(fx).redrawn(),
    {
        *confirm = None;
        self.operation = None;
        self.forget_passphrase();
        fx.ask_redraw();
    }

    /// `now` is this state once a waiting operation was dropped.
    pub open spec fn operation_dropped(self, now: BackupState) -> bool {
        if self.operation is Some {
            &&& now == (BackupState {
                operation: None,
                passphrase: now.passphrase,
                passphrase_selected: false,
                ..self
            })
            &&& now.passphrase_gone()
        } else {
            now == self
        }
    }

    /// `now` is this state once the page was left: a waiting operation is dropped, and the
    /// focused field left.
    #[verifier::opaque]
    pub open spec fn page_left(self, now: BackupState, c: BackupCommit) -> bool {
        exists|mid: BackupState| #[trigger] self.operation_dropped(mid) && mid.field_left(now, c)
    }

    /// What leaving the page asks for.
    pub open spec fn page_left_fx(self, fx: Fx) -> Fx {
        let dropped = if self.operation is Some {
            fx.redrawn()
        } else {
            fx
        };
        if self.focus is Some {
            dropped.marked()
        } else {
            dropped
        }
    }

    /// Leaves the page. The result is what leaving the focused field asks for.
    pub fn leave_page(&mut self, confirm: &mut Option<NebulaConfirm>, fx: &mut Fx) -> (c:
        BackupCommit)
        requires
            old(self).wf(),
        ensures
            final(self).wf(),
            old(self).page_left(*final(self), c),
            *final(confirm) == (if old(self).operation is Some {
                None
            } else {
                *old(confirm)
            }),
            *final(fx) == old(self).page_left_fx(*old(fx)),
    {
        if self.operation.is_some() {
            self.cancel_backup_operation(confirm, fx);
        }
        let ghost mid = *self;
        let c = self.commit_backup_remote_field(fx);
        proof {
            reveal(BackupState::page_left);
            assert(old(self).operation_dropped(mid));
        }
        c
    }
}

/// The passphrase never stays on the card once it was answered, whatever came of it.
pub proof fn answered_card_forgets_passphrase(
    was: BackupState,
    now: BackupState,
    done: bool,
    busy: bool,
    remote: bool,
)
    requires
        was.answered(now, done, busy, remote),
    ensures
        now.passphrase@.len() == 0,
        !now.passphrase_selected,
{
}

/// Every slot shows what is stored for it, and one without anything stored is empty.
pub proof fn slots_show_what_is_stored(stored: Seq<Option<String>>, i: int, value: String)
    requires
        0 <= i < 5,
    ensures
        stored_texts(stored).len() == 5,
        i < stored.len() && stored[i] == Some(value) ==> stored_texts(stored)[i] == value@,
        i < stored.len() && stored[i] is None ==> stored_texts(stored)[i].len() == 0,
        i >= stored.len() ==> stored_texts(stored)[i].len() == 0,
{
}

/// Leaving a field hands it over: a secret as it was typed, to where its protocol keeps it
/// and for the user beside it, and every other field without white space at its ends. The
/// secret is not shown any more.
pub proof fn left_backup_field_is_handed_over(was: BackupState, now: BackupState, c: BackupCommit)
    requires
        was.wf(),
        was.field_left(now, c),
    ensures
        now.focus is None,
        now.selection == was.selection && now.target == was.target && now.operation
            == was.operation && now.passphrase == was.passphrase,
        was.focus is None ==> c is Nothing,
        was.focus matches Some(i) ==> {
            let value = was.inputs@[i as int]@;
            let secret = was.target.secret_field == Some(i);
            &&& !secret ==> (c matches BackupCommit::SaveSlot { index, value: v } && index == i
                && v@ == trimmed(value))
            &&& secret ==> now.inputs@[i as int]@.len() == 0 && !(c is SaveSlot)
            &&& secret && trimmed(value).len() == 0 ==> c is Nothing
            &&& c matches BackupCommit::StoreWebDavPassword { user, secret: s } ==> secret && s@
                == value && was.target.protocol is WebDav && (i != 1 ==> user@ == trimmed(
                was.inputs@[1]@,
            ))
            &&& c matches BackupCommit::StoreS3Secret { access_key, secret: s } ==> secret && s@
                == value && was.target.protocol is S3 && (i != 3 ==> access_key@ == trimmed(
                was.inputs@[3]@,
            ))
            &&& secret && trimmed(value).len() > 0 && was.target.protocol is WebDav ==> c
                is StoreWebDavPassword
            &&& secret && trimmed(value).len() > 0 && was.target.protocol is S3 ==> c
                is StoreS3Secret
            &&& forall|j: int|
                0 <= j < 5 && j != i ==> (#[trigger] now.inputs@[j])@ == was.inputs@[j]@
        },
{
    if was.focus is Some {
        let i = was.focus->0 as int;
        let t = slot_texts(now.inputs@);
        let u = slot_texts(was.inputs@);
        assert(t.len() == 5);
        assert(now.inputs@.len() == 5);
        assert forall|j: int| 0 <= j < 5 implies (#[trigger] now.inputs@[j])@ == t[j] && u[j]
            == was.inputs@[j]@ by {}
        assert(u[1] == was.inputs@[1]@ && u[3] == was.inputs@[3]@);
        assert(now.inputs@[i]@ == t[i]);
        assert forall|j: int| 0 <= j < 5 && j != i implies (#[trigger] now.inputs@[j])@
            == was.inputs@[j]@ by {
            assert(t[j] == u[j]);
        }
    }
}

/// A pasted passphrase goes behind what was typed, or in its place where that is selected,
/// without control characters; only what is beyond 256 characters is cut.
pub proof fn pasted_passphrase_is_taken_whole(b: BackupState, text: Seq<char>)
    requires
        b.passphrase@.len() <= 256,
    ensures
        ({
            let base = if b.passphrase_selected {
                Seq::<char>::empty()
            } else {
                b.passphrase@
            };
            let p = b.pasted_passphrase(text);
            let clean = text.filter(|c: char| !crate::text::is_control_char(c));
            &&& p.len() <= 256
            &&& p.take(base.len() as int) == base
            &&& p.len() < 256 ==> p == base + clean
            &&& p.skip(base.len() as int) == clean.take(p.len() - base.len())
        }),
{
    lemma_printable_is_a_filter(text);
    let base = if b.passphrase_selected {
        Seq::<char>::empty()
    } else {
        b.passphrase@
    };
    let p = b.pasted_passphrase(text);
    let clean = printable(text);
    assert(p.take(base.len() as int) =~= base);
    assert(p.skip(base.len() as int) =~= clean.take(p.len() - base.len()));
}

proof fn lemma_printable_is_a_filter(s: Seq<char>)
    ensures
        printable(s) == s.filter(|c: char| !crate::text::is_control_char(c)),
    decreases s.len(),
{
    reveal(Seq::filter);
    let pred = |c: char| !crate::text::is_control_char(c);
    if s.len() > 0 {
        lemma_printable_is_a_filter(s.drop_last());
    } else {
        assert(printable(s) =~= s);
    }
    assert(printable(s) == s.filter(pred));
}

/// Only work on the remote backup is remote, and it is told up from down.
pub proof fn remote_work_has_a_direction(b: BackupState)
    ensures
        b.remote_kind() == Some(true) <==> (b.operation matches Some(o) && o is RemotePush),
        b.remote_kind() == Some(false) <==> (b.operation matches Some(o) && o is RemotePull),
        b.operation is None ==> b.remote_kind() is None,
        forall|l: UiLanguage| #[trigger] running_message(l, true) != running_message(l, false),
        forall|l: UiLanguage| #[trigger] finished_message(l, true) != finished_message(l, false),
{
    reveal_strlit("备份上传中…");
    reveal_strlit("Uploading backup…");
    reveal_strlit("正在取回远端备份…");
    reveal_strlit("Fetching remote backup…");
    reveal_strlit("备份已恢复，重启后应用全部设置");
    reveal_strlit("Backup restored; restart to apply all settings");
    reveal_strlit("备份已导出");
    reveal_strlit("Backup exported");
    assert("备份上传中…"@[0] != "正在取回远端备份…"@[0]);
    assert("Uploading backup…"@[0] != "Fetching remote backup…"@[0]);
    assert("备份已恢复，重启后应用全部设置"@.len() != "备份已导出"@.len());
    assert("Backup restored; restart to apply all settings"@.len() != "Backup exported"@.len());
}

/// A question for a passphrase starts without one and keeps what is to be done; an answer
/// ends it where it is done. Dropping it forgets the passphrase too.
pub proof fn passphrase_is_asked_anew(
    b: BackupState,
    now: BackupState,
    operation: BackupOperation,
    done: bool,
    busy: bool,
    remote: bool,
    typed: Seq<char>,
)
    ensures
        b.asking(now, operation) ==> now.operation == Some(operation) && now.passphrase@.len() == 0
            && now.status is None && now.inputs == b.inputs && now.selection == b.selection,
        b.answered(now, done, busy, remote) ==> now.passphrase@.len() == 0 && now.busy == busy
            && now.status_remote == remote && (done ==> now.operation is None) && (!done
            ==> now.operation == b.operation) && now.selection == b.selection,
        b.operation_dropped(now) ==> now.operation is None && now.inputs == b.inputs && now.focus
            == b.focus && (b.operation is Some ==> now.passphrase@.len() == 0),
        b.retyped(now, typed) ==> now.passphrase@ == typed && now.operation == b.operation
            && now.status is None && !now.passphrase_selected && now.inputs == b.inputs,
{
}

/// A slot takes what its rule takes while it has room, and only the secret takes blanks.
pub proof fn only_secrets_take_blanks(target: BackupTarget, index: usize)
    ensures
        field_rule(target, index).spaces <==> target.secret_field == Some(index),
        field_rule(target, index).max == 512,
{
}

/// A page that is left has no work any more that waits for a passphrase, nor the passphrase,
/// and no field with the keyboard.
pub proof fn left_page_forgets_its_work(was: BackupState, now: BackupState, c: BackupCommit)
    requires
        was.page_left(now, c),
    ensures
        now.operation is None,
        now.focus is None,
        was.operation is Some ==> now.passphrase@.len() == 0 && !now.passphrase_selected,
        now.selection == was.selection && now.target == was.target,
{
    reveal(BackupState::page_left);
    assert forall|mid: BackupState| #[trigger]
        was.operation_dropped(mid) && mid.field_left(now, c) implies now.operation is None
        && now.focus is None && (was.operation is Some ==> now.passphrase@.len() == 0
        && !now.passphrase_selected) && now.selection == was.selection && now.target
        == was.target by {
        assert(mid.operation is None);
        assert(now.operation == mid.operation && now.passphrase == mid.passphrase);
    }
}

/// A click on an item of the backup switches that item and no other; a place without an item
/// does nothing.
pub proof fn clicked_item_is_switched(b: &mut BackupState, index: usize, fx: &mut Fx)
    requires
        call_ensures(BackupState::toggle_backup_selection, (b, index, fx), ()),
    ensures
        ({
            let s = old(b).selection;
            let t = final(b).selection;
            &&& t.appearance != s.appearance <==> index == 0
            &&& t.config != s.config <==> index == 1
            &&& t.ssh != s.ssh <==> index == 2
            &&& t.sync != s.sync <==> index == 3
            &&& t.assistant != s.assistant <==> index == 4
            &&& t.session != s.session <==> index == 5
            &&& t.directory_history != s.directory_history <==> index == 6
            &&& t.command_history != s.command_history <==> index == 7
            &&& t.fonts != s.fonts <==> index == 8
        }),
        final(b).target == old(b).target && final(b).inputs == old(b).inputs && final(b).status
            == old(b).status,
        index > 8 ==> *final(fx) == *old(fx),
{
    assert(final(b).selection == old(b).selection.toggled(index));
    switching_changes_one_item(old(b).selection, index);
}

/// Selecting works item by item, and a selection is empty exactly without any.
pub proof fn selection_is_made_item_by_item(
    s: BackupSelection,
    t: BackupSelection,
    index: usize,
    empty: bool,
)
    requires
        call_ensures(BackupSelection::toggle, (s, index), t),
        call_ensures(BackupSelection::is_empty, (&t,), empty),
    ensures
        t.appearance != s.appearance <==> index == 0,
        t.config != s.config <==> index == 1,
        t.ssh != s.ssh <==> index == 2,
        t.sync != s.sync <==> index == 3,
        t.assistant != s.assistant <==> index == 4,
        t.session != s.session <==> index == 5,
        t.directory_history != s.directory_history <==> index == 6,
        t.command_history != s.command_history <==> index == 7,
        t.fonts != s.fonts <==> index == 8,
        empty <==> !(t.appearance || t.config || t.ssh || t.sync || t.assistant || t.session
            || t.directory_history || t.command_history || t.fonts),
{
}

/// Work on files is done with the path that was chosen, the passphrase that was typed and
/// what is selected; remote work is not done on files.
pub proof fn local_work_uses_what_was_typed(b: BackupState, r: Option<LocalBackup>)
    requires
        call_ensures(BackupState::local_backup, (&b,), r),
    ensures
        r matches Some(LocalBackup::Export { path, passphrase, selection }) ==> b.operation == Some(
            BackupOperation::Export(path),
        ) && passphrase@ == b.passphrase@ && selection == b.selection,
        r matches Some(LocalBackup::Restore { path, passphrase }) ==> b.operation == Some(
            BackupOperation::Restore(path),
        ) && passphrase@ == b.passphrase@,
        r is Some <==> b.operation is Some && b.remote_kind() is None,
{
}

/// A remote backup starts only with a passphrase of eight characters, which it gets together
/// with what is selected. However it is answered, the passphrase is not kept.
pub proof fn remote_backup_needs_a_passphrase(
    b: &mut BackupState,
    local: Result<(), String>,
    language: UiLanguage,
    confirm: &mut Option<NebulaConfirm>,
    fx: &mut Fx,
    r: Option<RemoteBackupRequest>,
)
    requires
        call_ensures(
            BackupState::complete_backup_operation,
            (b, local, language, confirm, fx),
            r,
        ),
    ensures
        r is Some <==> old(b).remote_kind() is Some && old(b).passphrase@.len() >= 8,
        r matches Some(q) ==> q.passphrase@ == old(b).passphrase@ && q.selection
            == old(b).selection && (q.upload <==> old(b).operation == Some(
            BackupOperation::RemotePush,
        )) && final(b).busy && final(b).operation is None && *final(confirm) is None,
        old(b).operation is Some ==> final(b).passphrase@.len() == 0,
        old(b).operation is Some && r is None && final(b).operation is Some ==> (
        final(b).status matches Some((_, error)) && error),
        old(b).operation is None ==> *final(b) == *old(b),
        old(b).operation is Some && old(b).remote_kind() is None ==> (final(b).operation is None
            <==> local is Ok),
        final(b).selection == old(b).selection && final(b).inputs == old(b).inputs,
{
}

/// A backup is written only with something selected, and work that starts asks for a
/// passphrase with an empty field.
pub proof fn started_work_asks_for_a_passphrase(
    b: &mut BackupState,
    upload: bool,
    validation: Result<(), String>,
    language: UiLanguage,
    confirm: &mut Option<NebulaConfirm>,
    fx: &mut Fx,
)
    requires
        call_ensures(
            BackupState::start_backup_remote,
            (b, upload, validation, language, confirm, fx),
            (),
        ),
    ensures
        old(b).busy ==> *final(b) == *old(b) && *final(confirm) == *old(confirm),
        !old(b).busy && validation is Ok && !(upload && old(b).selection.nothing()) ==> {
            &&& final(b).operation == Some(
                if upload {
                    BackupOperation::RemotePush
                } else {
                    BackupOperation::RemotePull
                },
            )
            &&& final(b).passphrase@.len() == 0
            &&& *final(confirm) == Some(NebulaConfirm::BackupPassphrase { restoring: !upload })
        },
        !old(b).busy && (validation is Err || (upload && old(b).selection.nothing())) ==> {
            &&& final(b).operation == old(b).operation
            &&& *final(confirm) == *old(confirm)
            &&& final(b).status matches Some((_, error)) && error
            &&& final(b).status_remote
        },
        final(b).selection == old(b).selection && final(b).inputs == old(b).inputs,
{
}

/// An export and a restore ask for a passphrase once a file was chosen.
pub proof fn chosen_file_asks_for_a_passphrase(
    b: &mut BackupState,
    path: Option<String>,
    confirm: &mut Option<NebulaConfirm>,
    fx: &mut Fx,
    c: &mut BackupState,
    confirm2: &mut Option<NebulaConfirm>,
    fx2: &mut Fx,
)
    requires
        call_ensures(BackupState::start_backup_export, (b, path, confirm, fx), ()),
        call_ensures(BackupState::start_backup_restore, (c, path, confirm2, fx2), ()),
    ensures
        path is None ==> *final(b) == *old(b) && *final(c) == *old(c) && *final(confirm)
            == *old(confirm) && *final(confirm2) == *old(confirm2),
        path matches Some(p) ==> {
            &&& final(b).operation == Some(BackupOperation::Export(p))
            &&& *final(confirm) == Some(NebulaConfirm::BackupPassphrase { restoring: false })
            &&& final(c).operation == Some(BackupOperation::Restore(p))
            &&& *final(confirm2) == Some(NebulaConfirm::BackupPassphrase { restoring: true })
            &&& final(b).passphrase@.len() == 0 && final(c).passphrase@.len() == 0
        },
{
}

/// A typed character goes to the end of the passphrase, or replaces it where it is selected;
/// control characters and what is beyond 256 characters do nothing. Erasing takes the last
/// one, or all of it.
pub proof fn passphrase_is_typed_at_its_end(
    b: &mut BackupState,
    character: char,
    fx: &mut Fx,
    c: &mut BackupState,
    fx2: &mut Fx,
)
    requires
        call_ensures(BackupState::backup_passphrase_push, (b, character, fx), ()),
        call_ensures(BackupState::backup_passphrase_backspace, (c, fx2), ()),
    ensures
        is_control_char(character) ==> *final(b) == *old(b),
        !is_control_char(character) && old(b).passphrase_selected ==> final(b).passphrase@ == seq![
            character,
        ],
        !is_control_char(character) && !old(b).passphrase_selected && old(b).passphrase@.len()
            < 256 ==> final(b).passphrase@ == old(b).passphrase@ + seq![character],
        !is_control_char(character) && !old(b).passphrase_selected && old(b).passphrase@.len()
            >= 256 ==> *final(b) == *old(b),
        old(c).passphrase_selected ==> final(c).passphrase@.len() == 0,
        !old(c).passphrase_selected && old(c).passphrase@.len() > 0 ==> final(c).passphrase@
            == old(c).passphrase@.take(old(c).passphrase@.len() - 1),
        final(b).operation == old(b).operation && final(c).operation == old(c).operation,
{
    assert(old(b).passphrase@.push(character) =~= old(b).passphrase@ + seq![character]);
    if old(c).passphrase@.len() > 0 {
        assert(old(c).passphrase@.drop_last() =~= old(c).passphrase@.take(
            old(c).passphrase@.len() - 1,
        ));
    }
}

/// A slot that gets the keyboard is one that the target has; nothing changes where a slot
/// has it already.
pub proof fn focused_slot_is_one_of_the_target(b: &mut BackupState, index: usize, fx: &mut Fx)
    requires
        call_ensures(BackupState::focus_backup_remote_field, (b, index, fx), ()),
    ensures
        old(b).focus is Some || old(b).target.field_count == 0 ==> *final(b) == *old(b),
        old(b).focus is None && index < old(b).target.field_count ==> final(b).focus == Some(index),
        old(b).focus is None && old(b).target.field_count > 0 && index >= old(b).target.field_count
            ==> final(b).focus == Some((old(b).target.field_count - 1) as usize),
        final(b).inputs == old(b).inputs && final(b).selection == old(b).selection,
{
}

/// Typing goes to the end of the slot with the keyboard and erasing takes its last character;
/// escape puts back what is stored. The other slots stay.
pub proof fn focused_slot_is_typed_into(
    b: &mut BackupState,
    ch: char,
    fx: &mut Fx,
    c: &mut BackupState,
    fx2: &mut Fx,
    d: &mut BackupState,
    stored: &str,
    fx3: &mut Fx,
    j: int,
)
    requires
        call_ensures(BackupState::backup_remote_field_push, (b, ch, fx), ()),
        call_ensures(BackupState::backup_remote_field_backspace, (c, fx2), ()),
        call_ensures(BackupState::cancel_backup_remote_field, (d, stored, fx3), ()),
        old(b).wf(),
        old(c).wf(),
        old(d).wf(),
        0 <= j < 5,
    ensures
        old(b).focus is None ==> *final(b) == *old(b),
        old(b).focus matches Some(i) ==> {
            let v = old(b).inputs@[i as int]@;
            &&& field_rule(old(b).target, i).takes(ch) && v.len() < 512
                ==> final(b).inputs@[i as int]@ == v + seq![ch]
            &&& !field_rule(old(b).target, i).takes(ch) || v.len() >= 512 ==> *final(b) == *old(b)
            &&& j != i ==> final(b).inputs@[j]@ == old(b).inputs@[j]@
        },
        old(c).focus matches Some(i) ==> {
            let v = old(c).inputs@[i as int]@;
            &&& v.len() > 0 ==> final(c).inputs@[i as int]@ == v.take(v.len() - 1)
            &&& j != i ==> final(c).inputs@[j]@ == old(c).inputs@[j]@
        },
        final(d).focus is None,
        old(d).focus matches Some(i) ==> final(d).inputs@[i as int]@ == stored@ && (j != i
            ==> final(d).inputs@[j]@ == old(d).inputs@[j]@),
{
    if old(b).focus is Some {
        let i = old(b).focus->0;
        let v = old(b).inputs@[i as int]@;
        assert(v.push(ch) =~= v + seq![ch]);
        if old(b).takes(ch) {
            lemma_set_slot(*old(b), *final(b), i, j, v.push(ch));
        }
    }
    if old(c).focus is Some {
        let i = old(c).focus->0;
        let v = old(c).inputs@[i as int]@;
        if v.len() > 0 {
            assert(v.drop_last() =~= v.take(v.len() - 1));
            lemma_set_slot(*old(c), *final(c), i, j, v.drop_last());
        }
    }
    if old(d).focus is Some {
        let i = old(d).focus->0;
        lemma_set_slot(BackupState { focus: None, ..*old(d) }, *final(d), i, j, stored@);
    }
}

proof fn lemma_set_slot(b: BackupState, now: BackupState, i: usize, j: int, text: Seq<char>)
    requires
        b.inputs@.len() == 5,
        b.field_set(now, i, text),
        i < 5,
        0 <= j < 5,
    ensures
        now.inputs@[i as int]@ == text,
        j != i ==> now.inputs@[j]@ == b.inputs@[j]@,
        now.focus == b.focus,
{
    let t = slot_texts(now.inputs@);
    let u = slot_texts(b.inputs@);
    assert(t.len() == 5);
    assert(t[i as int] == now.inputs@[i as int]@ && t[j] == now.inputs@[j]@ && u[j]
        == b.inputs@[j]@);
}

/// An export is ready with something selected, and tells so otherwise; work that is cancelled
/// and its passphrase are gone; what came of remote work is shown.
pub proof fn work_ends_and_is_told(
    b: &mut BackupState,
    language: UiLanguage,
    fx: &mut Fx,
    r: bool,
    c: &mut BackupState,
    confirm: &mut Option<NebulaConfirm>,
    fx2: &mut Fx,
    d: &mut BackupState,
    message: String,
    error: bool,
    fx3: &mut Fx,
    e: &mut BackupState,
    fx4: &mut Fx,
)
    requires
        call_ensures(BackupState::backup_export_ready, (b, language, fx), r),
        call_ensures(BackupState::cancel_backup_operation, (c, confirm, fx2), ()),
        call_ensures(BackupState::backup_remote_done, (d, message, error, fx3), ()),
        call_ensures(BackupState::backup_passphrase_select_all, (e, fx4), ()),
    ensures
        r <==> !old(b).selection.nothing(),
        r ==> *final(b) == *old(b),
        !r ==> (final(b).status matches Some((_, bad)) && bad) && !final(b).status_remote,
        final(c).operation is None && final(c).passphrase@.len() == 0 && *final(confirm) is None,
        final(c).selection == old(c).selection && final(c).inputs == old(c).inputs,
        !final(d).busy && final(d).status == Some((message, error)) && final(d).status_remote
            && final(d).selection == old(d).selection,
        final(e).passphrase == old(e).passphrase && (final(e).passphrase_selected
            <==> old(e).passphrase@.len() > 0),
{
}

/// A target that is loaded shows what is stored for each of its slots.
pub proof fn loaded_target_shows_what_is_stored(
    b: &mut BackupState,
    target: BackupTarget,
    stored: Vec<Option<String>>,
    secret_set: bool,
    i: int,
)
    requires
        call_ensures(
            BackupState::load_backup_remote_state,
            (b, target, &stored, secret_set),
            (),
        ),
        0 <= i < 5,
    ensures
        final(b).target == target && final(b).secret_set == secret_set && final(b).focus is None,
        final(b).inputs@.len() == 5,
        i < stored@.len() && stored@[i] is Some ==> final(b).inputs@[i]@ == (stored@[i]->0)@,
        i >= stored@.len() || stored@[i] is None ==> final(b).inputs@[i]@.len() == 0,
        final(b).selection == old(b).selection && final(b).operation == old(b).operation,
{
    let t = slot_texts(final(b).inputs@);
    assert(t.len() == 5);
    assert(t[i] == final(b).inputs@[i]@);
}

} // verus!
