//! Deleting, restoring and remembering SSH hosts.
use crate::fx::Fx;
use crate::hosts::{
    at_most_once, first_index, hidden_list_is_restored, lemma_without_absent, lists_host,
    other_hosts_stay, put_back, put_back_undoes_without, remove_host, remove_ssh_host_from_lists,
    restore_ssh_host_to_lists, without, HostState, SshDeleteUndo, SAVED_HOSTS_CAP,
    SSH_DELETE_UNDO_MS,
};
use crate::modal::{undo_message, undo_text, NebulaConfirm, UndoBar, UNDO_ACTION, UNDO_KEY};
use crate::text::{concat3, decimal, decimal_text, same_text, slot_cells, texts};
use vstd::prelude::*;

verus! {

/// The lists as texts.
pub struct HostLists {
    pub saved: Seq<Seq<char>>,
    pub pinned: Seq<Seq<char>>,
    pub hidden: Seq<Seq<char>>,
}

impl HostState {
    pub open spec fn lists(self) -> HostLists {
        HostLists {
            saved: texts(self.saved@),
            pinned: texts(self.pinned@),
            hidden: texts(self.hidden@),
        }
    }

    /// Whether a deletion can still be undone at `now_ms`.
    pub open spec fn can_undo(self, now_ms: u64) -> bool {
        self.undo matches Some(u) && now_ms - u.started_at_ms < SSH_DELETE_UNDO_MS
    }
}

impl HostLists {
    /// The lists without `host`.
    pub open spec fn removed(self, host: Seq<char>, from_config: bool) -> HostLists {
        HostLists {
            saved: without(self.saved, host),
            pinned: without(self.pinned, host),
            hidden: if from_config && !self.hidden.contains(host) {
                self.hidden.push(host)
            } else {
                self.hidden
            },
        }
    }

    /// The lists with `host` back where the record says.
    pub open spec fn restored(
        self,
        host: Seq<char>,
        saved_index: Option<usize>,
        pinned_index: Option<usize>,
        was_hidden: bool,
    ) -> HostLists {
        HostLists {
            saved: put_back(without(self.saved, host), saved_index, host),
            pinned: put_back(without(self.pinned, host), pinned_index, host),
            hidden: if was_hidden {
                self.hidden
            } else {
                without(self.hidden, host)
            },
        }
    }
}

/// Where `host` stands, as the undo record keeps it.
pub open spec fn kept_index(list: Seq<Seq<char>>, host: Seq<char>) -> Option<usize> {
    match first_index(list, host) {
        Some(i) => Some(i as usize),
        None => None,
    }
}

/// Undoing a deletion gives back all three lists in their order, where the host stood at
/// most once in the saved and in the pinned list.
pub proof fn undo_restores_host_lists(lists: HostLists, host: Seq<char>, from_config: bool)
    requires
        at_most_once(lists.saved, host),
        at_most_once(lists.pinned, host),
        lists.saved.len() <= usize::MAX,
        lists.pinned.len() <= usize::MAX,
    ensures
        lists.removed(host, from_config).restored(
            host,
            kept_index(lists.saved, host),
            kept_index(lists.pinned, host),
            lists.hidden.contains(host),
        ) == lists,
{
    put_back_undoes_without(lists.saved, host);
    put_back_undoes_without(lists.pinned, host);
    hidden_list_is_restored(lists.hidden, host, from_config);
}

/// A deleted host is in neither list any more, and one from the user's configuration is
/// hidden.
pub proof fn removed_host_is_gone(lists: HostLists, host: Seq<char>, from_config: bool)
    ensures
        !lists.removed(host, from_config).saved.contains(host),
        !lists.removed(host, from_config).pinned.contains(host),
        from_config ==> lists.removed(host, from_config).hidden.contains(host),
{
    lemma_without_absent(lists.saved, host);
    lemma_without_absent(lists.pinned, host);
    if from_config && !lists.hidden.contains(host) {
        assert(lists.hidden.push(host)[lists.hidden.len() as int] == host);
    }
}

/// The first `n` entries of `list` that are all pinned, and no more.
pub open spec fn pinned_prefix(list: Seq<Seq<char>>, pinned: Seq<Seq<char>>, n: int) -> bool {
    &&& 0 <= n <= list.len()
    &&& forall|i: int| 0 <= i < n ==> pinned.contains(#[trigger] list[i])
    &&& n < list.len() ==> !pinned.contains(list[n])
}

impl HostState {
    /// `now` is this state without the undo record: the stored password of its host is
    /// due to be deleted.
    pub open spec fn undo_dropped(self, now: HostState) -> bool {
        &&& now == (HostState {
            undo: None,
            expired_credentials: now.expired_credentials,
            ..self
        })
        &&& match self.undo {
            Some(u) => texts(now.expired_credentials@) == texts(self.expired_credentials@).push(
                u.host@,
            ),
            None => now.expired_credentials == self.expired_credentials,
        }
    }

    /// `now` is this state once `host` was deleted at `now_ms`. An older undo record
    /// is dropped for the new one.
    pub open spec fn host_deleted(
        self,
        now: HostState,
        host: Seq<char>,
        from_config: bool,
        now_ms: u64,
    ) -> bool {
        &&& now.lists() == self.lists().removed(host, from_config)
        &&& now.listed == self.listed
        &&& now.undo_bar == self.undo_bar
        &&& now.undo_hover == self.undo_hover
        &&& match self.undo {
            Some(u) => texts(now.expired_credentials@) == texts(self.expired_credentials@).push(
                u.host@,
            ),
            None => now.expired_credentials == self.expired_credentials,
        }
        &&& now.undo matches Some(u) && u.host@ == host && u.from_config == from_config
            && u.started_at_ms == now_ms && u.saved_index == kept_index(self.lists().saved, host)
            && u.pinned_index == kept_index(self.lists().pinned, host) && u.was_hidden
            == self.lists().hidden.contains(host)
    }

    /// `now` is this state once its deletion was undone.
    pub open spec fn host_undone(self, now: HostState) -> bool {
        &&& now.undo is None
        &&& !now.undo_bar
        &&& !now.undo_hover
        &&& now.listed == self.listed
        &&& now.expired_credentials == self.expired_credentials
        &&& self.undo matches Some(u) && now.lists() == self.lists().restored(
            u.host@,
            u.saved_index,
            u.pinned_index,
            u.was_hidden,
        )
    }

    /// `now` is this state once a hidden host was shown again without an undo; `expired`
    /// tells that its undo record was past the grace period and is dropped.
    pub open spec fn host_unhidden(
        self,
        now: HostState,
        host: Seq<char>,
        from_config: bool,
        expired: bool,
    ) -> bool {
        &&& now == (HostState {
            saved: now.saved,
            hidden: now.hidden,
            undo: now.undo,
            expired_credentials: now.expired_credentials,
            ..self
        })
        &&& expired ==> now.undo is None && texts(now.expired_credentials@) == texts(
            self.expired_credentials@,
        ).push(host)
        &&& !expired ==> now.undo == self.undo && now.expired_credentials
            == self.expired_credentials
        &&& now.lists().hidden == without(self.lists().hidden, host)
        &&& now.lists().saved == (if from_config || self.lists().saved.contains(host) {
            self.lists().saved
        } else {
            seq![host] + self.lists().saved
        })
    }

    /// `now` is this state once `host` was remembered.
    pub open spec fn host_saved(self, now: HostState, host: Seq<char>) -> bool {
        let recent = seq![host] + without(self.lists().saved, host);
        let listed = texts(self.listed@);
        &&& now == (HostState {
            saved: now.saved,
            hidden: now.hidden,
            listed: now.listed,
            ..self
        })
        &&& now.lists().saved == (if recent.len() <= SAVED_HOSTS_CAP {
            recent
        } else {
            recent.take(SAVED_HOSTS_CAP as int)
        })
        &&& now.lists().hidden == without(self.lists().hidden, host)
        &&& listed.contains(host) ==> now.listed == self.listed
        &&& !listed.contains(host) ==> shown_below_pinned(
            listed,
            texts(self.pinned@),
            host,
            texts(now.listed@),
        )
    }

    fn drop_undo(&mut self)
        ensures
            old(self).undo_dropped(*final(self)),
    {
        let undo = self.undo.take();
        if let Some(u) = undo {
            let ghost before = texts(self.expired_credentials@);
            let ghost host = u.host@;
            self.expired_credentials.push(u.host);
            proof {
                assert(texts(self.expired_credentials@) =~= before.push(host));
            }
        }
    }

    fn delete(&mut self, host: &str, from_config: bool, now_ms: u64)
        ensures
            old(self).host_deleted(*final(self), host@, from_config, now_ms),
    {
        self.drop_undo();
        let (saved_index, pinned_index, was_hidden): (Option<usize>, Option<usize>, bool) =
            remove_ssh_host_from_lists(
            host,
            from_config,
            &mut self.saved,
            &mut self.pinned,
            &mut self.hidden,
        );
        self.undo = Some(
            SshDeleteUndo {
                host: host.to_owned(),
                saved_index,
                pinned_index,
                was_hidden,
                from_config,
                started_at_ms: now_ms,
            },
        );
    }

    fn undo_delete(&mut self)
        requires
            old(self).undo is Some,
        ensures
            old(self).host_undone(*final(self)),
    {
        let undo = self.undo.take();
        if let Some(u) = undo {
            restore_ssh_host_to_lists(
                u.host.as_str(),
                u.saved_index,
                u.pinned_index,
                u.was_hidden,
                &mut self.saved,
                &mut self.pinned,
                &mut self.hidden,
            );
        }
        self.undo_bar = false;
        self.undo_hover = false;
    }

    fn unhide(&mut self, host: String, from_config: bool)
        ensures
            old(self).host_unhidden(*final(self), host@, from_config, false),
    {
        remove_host(&mut self.hidden, host.as_str());
        if !from_config && !lists_host(&self.saved, host.as_str()) {
            let ghost before = texts(self.saved@);
            let ghost name = host@;
            self.saved.insert(0, host);
            proof {
                assert(texts(self.saved@) =~= seq![name] + before);
            }
        }
    }

    fn remember(&mut self, host: &str)
        requires
            old(self).saved@.len() < usize::MAX,
            old(self).listed@.len() < usize::MAX,
        ensures
            old(self).host_saved(*final(self), host@),
    {
        remove_host(&mut self.saved, host);
        remove_host(&mut self.hidden, host);
        let ghost kept = texts(self.saved@);
        self.saved.insert(0, host.to_owned());
        proof {
            assert(texts(self.saved@) =~= seq![host@] + kept);
        }
        let ghost recent = self.saved@;
        self.saved.truncate(SAVED_HOSTS_CAP);
        proof {
            if recent.len() > SAVED_HOSTS_CAP {
                assert(texts(self.saved@) =~= texts(recent).take(SAVED_HOSTS_CAP as int));
            } else {
                assert(self.saved@ =~= recent);
            }
        }
        if !lists_host(&self.listed, host) {
            let at: usize = pinned_block(&self.listed, &self.pinned);
            let ghost before = texts(self.listed@);
            self.listed.insert(at, host.to_owned());
            proof {
                assert(texts(self.listed@) =~= before.insert(at as int, host@));
                assert(pinned_prefix(before, texts(self.pinned@), at as int));
                assert(shown_below_pinned(
                    before,
                    texts(self.pinned@),
                    host@,
                    texts(self.listed@),
                ));
            }
        }
    }
}

/// `now` is `listed` with `host` right below the block of pinned hosts.
pub open spec fn shown_below_pinned(
    listed: Seq<Seq<char>>,
    pinned: Seq<Seq<char>>,
    host: Seq<char>,
    now: Seq<Seq<char>>,
) -> bool {
    exists|n: int| #[trigger] pinned_prefix(listed, pinned, n) && now == listed.insert(n, host)
}

fn pinned_block(listed: &Vec<String>, pinned: &Vec<String>) -> (n: usize)
    ensures
        pinned_prefix(texts(listed@), texts(pinned@), n as int),
{
    let mut at: usize = 0;
    while at < listed.len() && lists_host(pinned, listed[at].as_str())
        invariant
            at <= listed@.len(),
            forall|i: int|
                0 <= i < at ==> texts(pinned@).contains(#[trigger] texts(listed@)[i]),
        decreases listed@.len() - at,
    {
        proof {
            assert(texts(listed@)[at as int] == listed@[at as int]@);
        }
        at += 1;
    }
    proof {
        if at < listed@.len() {
            assert(texts(listed@)[at as int] == listed@[at as int]@);
        }
    }
    at
}

impl HostState {
    /// Asks before a host is deleted. Nothing happens for an index past the list.
    pub fn request_delete_ssh_host(
        &self,
        index: usize,
        from_config: bool,
        confirm: &mut Option<NebulaConfirm>,
        fx: &mut Fx,
    )
        ensures
            index >= self.listed@.len() ==> *final(confirm) == *old(confirm) && *final(fx)
                == *old(fx),
            index < self.listed@.len() ==> {
                &&& *final(fx) == old(fx).touched()
                &&& *final(confirm) matches Some(
                    NebulaConfirm::DeleteSsh { host, from_config: f },
                ) && host@ == self.listed@[index as int]@ && f == from_config
            },
    {
        if index >= self.listed.len() {
            return;
        }
        let host = self.listed[index].clone();
        *confirm = Some(NebulaConfirm::DeleteSsh { host, from_config });
        fx.touch();
    }

    /// Deletes a host and keeps the record that undoes it; an older record expires. The
    /// result tells whether the host was listed at all.
    pub fn confirm_delete_ssh_host(
        &mut self,
        host: &str,
        from_config: bool,
        now_ms: u64,
        fx: &mut Fx,
    ) -> (r: bool)
        ensures
            r == texts(old(self).listed@).contains(host@),
            !r ==> *final(self) == *old(self) && *final(fx) == *old(fx),
            r ==> {
                &&& *final(fx) == old(fx).merging().saved().touched()
                &&& old(self).host_deleted(*final(self), host@, from_config, now_ms)
            },
    {
        if !lists_host(&self.listed, host) {
            return false;
        }
        self.delete(host, from_config, now_ms);
        fx.ask_merge();
        fx.save();
        fx.touch();
        true
    }

    /// Brings a deleted host back. After the grace period the record is dropped instead
    /// and its stored password is due to be deleted.
    pub fn undo_delete_ssh_host(&mut self, now_ms: u64, fx: &mut Fx) -> (r: bool)
        ensures
            r == old(self).can_undo(now_ms),
            r ==> {
                &&& *final(fx) == old(fx).merging().saved().touched()
                &&& old(self).host_undone(*final(self))
            },
            !r ==> {
                &&& *final(fx) == *old(fx)
                &&& old(self).undo_dropped(*final(self))
            },
    {
        if !self.ssh_delete_undo_available(now_ms) {
            self.drop_undo();
            return false;
        }
        self.undo_delete();
        fx.ask_merge();
        fx.save();
        fx.touch();
        true
    }

    /// Ends the grace period.
    pub fn expire_ssh_delete_undo(&mut self, fx: &mut Fx)
        ensures
            *final(fx) == old(fx).touched(),
            (HostState { undo_bar: false, undo_hover: false, ..*old(self) }).undo_dropped(
                *final(self),
            ),
    {
        self.undo_bar = false;
        self.undo_hover = false;
        self.drop_undo();
        fx.touch();
    }

    pub fn ssh_delete_undo_available(&self, now_ms: u64) -> (r: bool)
        ensures
            r == self.can_undo(now_ms),
    {
        match &self.undo {
            Some(u) => now_ms.saturating_sub(u.started_at_ms) < SSH_DELETE_UNDO_MS,
            None => false,
        }
    }

    /// Whether a click inside or outside the undo button undoes something.
    pub fn ssh_delete_undo_hit(&self, now_ms: u64, inside_button: bool) -> (r: bool)
        ensures
            r == (self.can_undo(now_ms) && self.undo_bar && inside_button),
    {
        self.ssh_delete_undo_available(now_ms) && self.undo_bar && inside_button
    }

    /// Prepares the undo bar for a frame. Without a record there is no bar; a record
    /// past its grace period expires; else the bar shows. `label` is the name of the host,
    /// cut to its budget.
    pub fn draw_ssh_delete_undo(&mut self, now_ms: u64, label: &str, fx: &mut Fx) -> (r: Option<
        UndoBar,
    >)
        requires
            3 * label@.len() + 128 <= usize::MAX,
        ensures
            r is Some <==> old(self).can_undo(now_ms),
            r matches Some(bar) ==> {
                &&& *final(self) == (HostState { undo_bar: true, ..*old(self) })
                &&& *final(fx) == *old(fx)
                &&& bar.message@ == undo_text(label@, old(self).undo->0.from_config)
                &&& bar.hint == UNDO_KEY
                &&& bar.action == UNDO_ACTION
                &&& bar.content_cols == slot_cells(bar.message@) + slot_cells(UNDO_KEY@) + 2
                &&& bar.hovered == old(self).undo_hover
            },
            old(self).undo is None ==> *final(self) == (HostState {
                undo_bar: false,
                undo_hover: false,
                ..*old(self)
            }) && *final(fx) == *old(fx),
            r is None && old(self).undo is Some ==> {
                &&& *final(fx) == old(fx).touched()
                &&& (HostState { undo_bar: false, undo_hover: false, ..*old(self) }).undo_dropped(
                    *final(self),
                )
            },
    {
        let from_config: bool = match &self.undo {
            Some(u) => u.from_config,
            None => {
                self.undo_bar = false;
                self.undo_hover = false;
                return None;
            },
        };
        if !self.ssh_delete_undo_available(now_ms) {
            self.expire_ssh_delete_undo(fx);
            return None;
        }
        self.undo_bar = true;
        let (message, content_cols): (String, usize) = undo_message(label, from_config);
        Some(
            UndoBar {
                message,
                hint: UNDO_KEY,
                action: UNDO_ACTION,
                content_cols,
                hovered: self.undo_hover,
            },
        )
    }

    pub fn set_ssh_delete_undo_hover(&mut self, hovered: bool, fx: &mut Fx)
        ensures
            *final(self) == (HostState { undo_hover: hovered, ..*old(self) }),
            *final(fx) == (if old(self).undo_hover != hovered {
                old(fx).touched()
            } else {
                *old(fx)
            }),
    {
        if self.undo_hover != hovered {
            self.undo_hover = hovered;
            fx.touch();
        }
    }

    /// Takes over the shown list once it was put together from the lists and the user's
    /// configuration.
    pub fn set_ssh_hosts(&mut self, listed: Vec<String>, fx: &mut Fx)
        ensures
            *final(self) == (HostState { listed, ..*old(self) }),
            *final(fx) == (Fx { merge_hosts: false, ..*old(fx) }),
    {
        self.listed = listed;
        fx.merge_hosts = false;
    }

    /// Takes over the shown list after the user's configuration was read again, and says
    /// how many of its hosts are shown.
    pub fn import_ssh_config(
        &mut self,
        merged: Vec<String>,
        config_hosts: &Vec<String>,
        fx: &mut Fx,
    ) -> (toast: String)
        ensures
            *final(self) == (HostState { listed: merged, ..*old(self) }),
            *final(fx) == (Fx { merge_hosts: false, ..*old(fx) }).touched(),
            toast@ == "已导入 "@ + decimal_text(
                listed_count(texts(config_hosts@), texts(merged@), config_hosts@.len() as int),
            ) + " 个 SSH 主机，立即可用"@,
    {
        let count: usize = count_listed(config_hosts, &merged);
        self.set_ssh_hosts(merged, fx);
        fx.touch();
        concat3("已导入 ", decimal(count as u64).as_str(), " 个 SSH 主机，立即可用")
    }

    /// Shows a hidden host again. Where its deletion can still be undone it is undone;
    /// else it leaves the hidden list, and a host that is in no configuration goes to the
    /// front of the saved ones unless it is there.
    pub fn restore_hidden_ssh_host(
        &mut self,
        index: usize,
        from_config: bool,
        now_ms: u64,
        fx: &mut Fx,
    )
        ensures
            index >= old(self).hidden@.len() ==> *final(self) == *old(self) && *final(fx)
                == *old(fx),
            index < old(self).hidden@.len() ==> {
                let was = *old(self);
                let now = *final(self);
                let host = was.hidden@[index as int]@;
                let same = was.undo matches Some(u) && u.host@ == host;
                &&& *final(fx) == old(fx).merging().saved().touched()
                &&& same && was.can_undo(now_ms) ==> was.host_undone(now)
                &&& same && !was.can_undo(now_ms) ==> was.host_unhidden(
                    now,
                    host,
                    from_config,
                    true,
                )
                &&& !same ==> was.host_unhidden(now, host, from_config, false)
            },
    {
        if index >= self.hidden.len() {
            return;
        }
        let host = self.hidden[index].clone();
        let pending: bool = match &self.undo {
            Some(u) => same_text(u.host.as_str(), host.as_str()),
            None => false,
        };
        if pending {
            if self.undo_delete_ssh_host(now_ms, fx) {
                return;
            }
        }
        self.unhide(host, from_config);
        fx.ask_merge();
        fx.save();
        fx.touch();
    }

    /// Remembers a host that was connected to: first among the saved, once, at most
    /// `SAVED_HOSTS_CAP` of them, no longer hidden. Where it is not shown yet it is shown
    /// below the pinned block; a shown one keeps its place.
    pub fn nebula_save_ssh_host(&mut self, host: &str, fx: &mut Fx)
        requires
            old(self).saved@.len() < usize::MAX,
            old(self).listed@.len() < usize::MAX,
        ensures
            host@.len() == 0 ==> *final(self) == *old(self) && *final(fx) == *old(fx),
            host@.len() > 0 ==> {
                &&& *final(fx) == old(fx).saved().marked()
                &&& old(self).host_saved(*final(self), host@)
            },
    {
        if host.is_empty() {
            return;
        }
        self.remember(host);
        fx.save();
        fx.mark();
    }

    pub fn hidden_ssh_host_count(&self) -> (n: usize)
        ensures
            n == self.hidden@.len(),
    {
        self.hidden.len()
    }

    pub fn ssh_host_count(&self) -> (n: usize)
        ensures
            n == self.listed@.len(),
    {
        self.listed.len()
    }
}

fn count_listed(config_hosts: &Vec<String>, merged: &Vec<String>) -> (count: usize)
    ensures
        count == listed_count(texts(config_hosts@), texts(merged@), config_hosts@.len() as int),
{
    let mut count: usize = 0;
    let mut i: usize = 0;
    while i < config_hosts.len()
        invariant
            i <= config_hosts@.len(),
            count <= i,
            count == listed_count(texts(config_hosts@), texts(merged@), i as int),
        decreases config_hosts@.len() - i,
    {
        proof {
            assert(texts(config_hosts@)[i as int] == config_hosts@[i as int]@);
        }
        if lists_host(merged, config_hosts[i].as_str()) {
            count += 1;
        }
        i += 1;
    }
    count
}

/// How many of the first `k` configured hosts are shown.
pub open spec fn listed_count(config: Seq<Seq<char>>, listed: Seq<Seq<char>>, k: int) -> nat
    decreases k,
{
    if k <= 0 {
        0
    } else if listed.contains(config[k - 1]) {
        listed_count(config, listed, k - 1) + 1
    } else {
        listed_count(config, listed, k - 1)
    }
}

/// The remembered hosts after a connection: the host comes first, stands there once, and
/// the list stays within its cap.
pub proof fn saved_hosts_are_recent_first(saved: Seq<Seq<char>>, host: Seq<char>)
    ensures
        ({
            let recent = seq![host] + without(saved, host);
            let kept = if recent.len() <= SAVED_HOSTS_CAP {
                recent
            } else {
                recent.take(SAVED_HOSTS_CAP as int)
            };
            &&& kept[0] == host
            &&& kept.len() <= SAVED_HOSTS_CAP
            &&& at_most_once(kept, host)
        }),
{
    let rest = without(saved, host);
    lemma_without_absent(saved, host);
    let recent = seq![host] + rest;
    assert forall|i: int| 0 < i < recent.len() implies recent[i] != host by {
        assert(rest.contains(rest[i - 1]));
    }
}

/// Deleting a host leaves every other host in every list, in its order. Only a host from the
/// user's configuration becomes a hidden one.
pub proof fn deleting_leaves_other_hosts(lists: HostLists, host: Seq<char>, from_config: bool)
    ensures
        ({
            let now = lists.removed(host, from_config);
            &&& now.saved == lists.saved.filter(|h: Seq<char>| h != host)
            &&& now.pinned == lists.pinned.filter(|h: Seq<char>| h != host)
            &&& forall|h: Seq<char>| h != host ==> (#[trigger] now.hidden.contains(h)
                <==> lists.hidden.contains(h))
            &&& !from_config ==> now.hidden == lists.hidden
            &&& from_config ==> now.hidden.contains(host) && now.hidden.take(
                lists.hidden.len() as int,
            ) == lists.hidden
        }),
{
    other_hosts_stay(lists.saved, host);
    other_hosts_stay(lists.pinned, host);
    let now = lists.removed(host, from_config);
    assert(now.hidden.take(lists.hidden.len() as int) =~= lists.hidden);
    if from_config && !lists.hidden.contains(host) {
        assert(now.hidden[lists.hidden.len() as int] == host);
        assert forall|h: Seq<char>| h != host implies (#[trigger] now.hidden.contains(h)
            <==> lists.hidden.contains(h)) by {
            if lists.hidden.contains(h) {
                let i = choose|i: int| 0 <= i < lists.hidden.len() && lists.hidden[i] == h;
                assert(now.hidden[i] == h);
            }
            if now.hidden.contains(h) {
                let i = choose|i: int| 0 <= i < now.hidden.len() && now.hidden[i] == h;
                assert(lists.hidden[i] == h);
            }
        }
    }
}

/// A deletion can be undone for eight seconds, and the record of it holds what the undo
/// needs: the host, its places and whether it was hidden.
pub proof fn deletion_can_be_undone_for_eight_seconds(
    was: HostState,
    now: HostState,
    host: Seq<char>,
    from_config: bool,
    at_ms: u64,
    later_ms: u64,
)
    requires
        was.host_deleted(now, host, from_config, at_ms),
    ensures
        now.can_undo(later_ms) <==> later_ms < at_ms + 8000,
        now.undo->0.host@ == host,
        !was.lists().hidden.contains(host) <==> !now.undo->0.was_hidden,
        was.lists().saved.contains(host) <==> now.undo->0.saved_index is Some,
        was.lists().pinned.contains(host) <==> now.undo->0.pinned_index is Some,
{
    crate::hosts::lemma_first_index(was.lists().saved, host);
    crate::hosts::lemma_first_index(was.lists().pinned, host);
}

/// Deleting a host and undoing it gives every list back, and no stored password is due to be
/// deleted for it.
pub proof fn undone_deletion_leaves_no_trace(
    was: HostState,
    deleted: HostState,
    back: HostState,
    host: Seq<char>,
    from_config: bool,
    at_ms: u64,
)
    requires
        was.host_deleted(deleted, host, from_config, at_ms),
        deleted.host_undone(back),
        was.undo is None,
        at_most_once(was.lists().saved, host),
        at_most_once(was.lists().pinned, host),
        was.saved@.len() <= usize::MAX,
        was.pinned@.len() <= usize::MAX,
    ensures
        back.lists() == was.lists(),
        back.expired_credentials == was.expired_credentials,
        back.undo is None,
        !back.undo_bar,
{
    undo_restores_host_lists(was.lists(), host, from_config);
}

/// A record that runs out leaves the lists alone; the password of its host, and no other, is
/// then due to be deleted.
pub proof fn expired_record_gives_up_one_password(was: HostState, now: HostState)
    requires
        was.undo_dropped(now),
    ensures
        now.undo is None,
        now.lists() == was.lists(),
        now.listed == was.listed,
        was.undo matches Some(u) ==> texts(now.expired_credentials@).last() == u.host@ && texts(
            now.expired_credentials@,
        ).drop_last() == texts(was.expired_credentials@),
        was.undo is None ==> now.expired_credentials == was.expired_credentials,
{
    if let Some(u) = was.undo {
        assert(texts(now.expired_credentials@).drop_last() =~= texts(was.expired_credentials@));
    }
}

/// A host that is shown again leaves the hidden list and nothing else does. Where no
/// configuration holds it, it is among the saved ones afterwards.
pub proof fn unhidden_host_is_saved(
    was: HostState,
    now: HostState,
    host: Seq<char>,
    from_config: bool,
    expired: bool,
)
    requires
        was.host_unhidden(now, host, from_config, expired),
    ensures
        now.lists().hidden == was.lists().hidden.filter(|h: Seq<char>| h != host),
        now.lists().pinned == was.lists().pinned,
        !from_config ==> now.lists().saved.contains(host),
        from_config ==> now.lists().saved == was.lists().saved,
        forall|h: Seq<char>| #[trigger]
            was.lists().saved.contains(h) ==> now.lists().saved.contains(h),
        now.lists().saved.len() <= was.lists().saved.len() + 1,
{
    other_hosts_stay(was.lists().hidden, host);
    let (before, after) = (was.lists().saved, now.lists().saved);
    if !from_config && !before.contains(host) {
        assert(after[0] == host);
        assert forall|h: Seq<char>| #[trigger] before.contains(h) implies after.contains(h) by {
            let i = choose|i: int| 0 <= i < before.len() && before[i] == h;
            assert(after[i + 1] == h);
        }
    }
}

/// A host that was connected to comes first among the saved ones. The others follow in their
/// order, and only the oldest fall out. It is hidden no longer, it is shown, and what was
/// shown stays so, the pinned block at the top.
pub proof fn remembered_host_comes_first(was: HostState, now: HostState, host: Seq<char>)
    requires
        was.host_saved(now, host),
    ensures
        ({
            let others = was.lists().saved.filter(|h: Seq<char>| h != host);
            let saved = now.lists().saved;
            &&& saved.len() > 0 && saved[0] == host
            &&& saved.len() == (if others.len() < 20 {
                others.len() + 1
            } else {
                20
            })
            &&& forall|i: int| 1 <= i < saved.len() ==> #[trigger] saved[i] == others[i - 1]
            &&& !now.lists().hidden.contains(host)
            &&& now.lists().pinned == was.lists().pinned
            &&& texts(now.listed@).contains(host)
            &&& forall|h: Seq<char>| #[trigger]
                texts(was.listed@).contains(h) ==> texts(now.listed@).contains(h)
        }),
{
    other_hosts_stay(was.lists().saved, host);
    other_hosts_stay(was.lists().hidden, host);
    let (before, after) = (texts(was.listed@), texts(now.listed@));
    if !before.contains(host) {
        let n = choose|n: int| #[trigger]
            pinned_prefix(before, texts(was.pinned@), n) && after == before.insert(n, host);
        assert(after[n] == host);
        assert forall|h: Seq<char>| #[trigger] before.contains(h) implies after.contains(h) by {
            let i = choose|i: int| 0 <= i < before.len() && before[i] == h;
            if i < n {
                assert(after[i] == h);
            } else {
                assert(after[i + 1] == h);
            }
        }
    }
}

/// A host that is shown for the first time stands below the pinned ones that come first, and
/// above all others.
pub proof fn new_host_stands_below_pinned(
    listed: Seq<Seq<char>>,
    pinned: Seq<Seq<char>>,
    host: Seq<char>,
    now: Seq<Seq<char>>,
)
    requires
        shown_below_pinned(listed, pinned, host, now),
    ensures
        exists|n: int|
            0 <= n < now.len() && #[trigger] now[n] == host && now.remove(n) == listed && (forall|
                i: int,
            |
                0 <= i < n ==> pinned.contains(#[trigger] now[i])) && (n + 1 < now.len()
                ==> !pinned.contains(now[n + 1])),
{
    let n = choose|n: int| #[trigger]
        pinned_prefix(listed, pinned, n) && now == listed.insert(n, host);
    assert(now[n] == host);
    assert(now.remove(n) =~= listed);
    assert forall|i: int| 0 <= i < n implies pinned.contains(#[trigger] now[i]) by {
        assert(now[i] == listed[i]);
    }
}

/// The hosts of the configuration that are shown are counted one by one.
pub proof fn every_shown_host_is_counted(config: Seq<Seq<char>>, listed: Seq<Seq<char>>, k: int)
    requires
        0 <= k <= config.len(),
    ensures
        listed_count(config, listed, k) == config.take(k).filter(
            |h: Seq<char>| listed.contains(h),
        ).len(),
    decreases k,
{
    reveal(Seq::filter);
    if k > 0 {
        every_shown_host_is_counted(config, listed, k - 1);
        assert(config.take(k).drop_last() =~= config.take(k - 1));
    }
}

/// A host is deleted only where it is listed, and a question names the host that it is about.
pub proof fn listed_host_is_deleted(
    s: &mut HostState,
    host: &str,
    from_config: bool,
    now_ms: u64,
    fx: &mut Fx,
    r: bool,
    t: HostState,
    index: usize,
    confirm: &mut Option<NebulaConfirm>,
    fx2: &mut Fx,
)
    requires
        call_ensures(HostState::confirm_delete_ssh_host, (s, host, from_config, now_ms, fx), r),
        call_ensures(
            HostState::request_delete_ssh_host,
            (&t, index, from_config, confirm, fx2),
            (),
        ),
    ensures
        r <==> texts(old(s).listed@).contains(host@),
        !r ==> *final(s) == *old(s),
        r ==> !final(s).lists().saved.contains(host@) && !final(s).lists().pinned.contains(host@),
        r ==> (final(s).undo matches Some(u) && u.host@ == host@ && u.started_at_ms == now_ms),
        r && from_config ==> final(s).lists().hidden.contains(host@),
        r ==> final(fx).persist && final(fx).merge_hosts,
        index >= t.listed@.len() ==> *final(confirm) == *old(confirm),
        index < t.listed@.len() ==> (*final(confirm) matches Some(
            NebulaConfirm::DeleteSsh { host: h, from_config: f },
        ) && h@ == t.listed@[index as int]@ && f == from_config),
{
    other_hosts_stay(old(s).lists().saved, host@);
    other_hosts_stay(old(s).lists().pinned, host@);
    if r && from_config && !old(s).lists().hidden.contains(host@) {
        let h = final(s).lists().hidden;
        assert(h == old(s).lists().hidden.push(host@));
        assert(h[h.len() - 1] == host@);
    }
}

/// A deletion can be undone for eight seconds; then, and where nothing was deleted, undoing
/// restores nothing. It is offered as long as it can be.
pub proof fn undo_is_offered_while_it_works(
    s: &mut HostState,
    now_ms: u64,
    fx: &mut Fx,
    r: bool,
    t: HostState,
    offered: bool,
    inside: bool,
    hit: bool,
)
    requires
        call_ensures(HostState::undo_delete_ssh_host, (s, now_ms, fx), r),
        call_ensures(HostState::ssh_delete_undo_available, (&t, now_ms), offered),
        call_ensures(HostState::ssh_delete_undo_hit, (&t, now_ms, inside), hit),
    ensures
        r <==> (old(s).undo matches Some(u) && now_ms < u.started_at_ms + 8000),
        final(s).undo is None,
        !r ==> final(s).lists() == old(s).lists() && *final(fx) == *old(fx),
        r ==> final(s).expired_credentials == old(s).expired_credentials && final(fx).persist,
        offered <==> (t.undo matches Some(u) && now_ms < u.started_at_ms + 8000),
        hit <==> offered && t.undo_bar && inside,
{
}

/// A host that is saved stands first among the saved ones, is not hidden any more, and is
/// listed; a host without a name is not saved.
pub proof fn saved_host_is_listed(s: &mut HostState, host: &str, fx: &mut Fx)
    requires
        call_ensures(HostState::nebula_save_ssh_host, (s, host, fx), ()),
    ensures
        host@.len() == 0 ==> *final(s) == *old(s),
        host@.len() > 0 ==> final(s).lists().saved.len() > 0 && final(s).lists().saved[0] == host@,
        host@.len() > 0 ==> !final(s).lists().hidden.contains(host@) && final(fx).persist,
        final(s).pinned == old(s).pinned && final(s).undo == old(s).undo,
{
    other_hosts_stay(old(s).lists().hidden, host@);
}

/// Hosts that are told of are the listed ones, and nothing else changes.
pub proof fn told_hosts_are_listed(
    s: &mut HostState,
    listed: Vec<String>,
    fx: &mut Fx,
    t: &mut HostState,
    merged: Vec<String>,
    config_hosts: Vec<String>,
    fx2: &mut Fx,
    toast: String,
)
    requires
        call_ensures(HostState::set_ssh_hosts, (s, listed, fx), ()),
        call_ensures(HostState::import_ssh_config, (t, merged, &config_hosts, fx2), toast),
    ensures
        final(s).listed == listed && final(s).saved == old(s).saved && final(s).hidden
            == old(s).hidden && final(s).undo == old(s).undo,
        !final(fx).merge_hosts,
        final(t).listed == merged && final(t).saved == old(t).saved && final(t).hidden
            == old(t).hidden,
        !final(fx2).merge_hosts && final(fx2).redraw,
{
}

/// A hidden host that is restored is hidden no more, and saved where no configuration lists
/// it.
pub proof fn restored_host_is_not_hidden(
    s: &mut HostState,
    index: usize,
    from_config: bool,
    now_ms: u64,
    fx: &mut Fx,
)
    requires
        call_ensures(HostState::restore_hidden_ssh_host, (s, index, from_config, now_ms, fx), ()),
        old(s).undo is None,
    ensures
        index >= old(s).hidden@.len() ==> *final(s) == *old(s) && *final(fx) == *old(fx),
        index < old(s).hidden@.len() ==> {
            let host = old(s).hidden@[index as int]@;
            &&& !final(s).lists().hidden.contains(host)
            &&& !from_config ==> final(s).lists().saved.contains(host)
            &&& from_config ==> final(s).lists().saved == old(s).lists().saved
            &&& final(fx).persist && final(fx).merge_hosts
        },
        final(s).pinned == old(s).pinned && final(s).listed == old(s).listed,
{
    if index < old(s).hidden@.len() {
        let host = old(s).hidden@[index as int]@;
        other_hosts_stay(old(s).lists().hidden, host);
        let saved = old(s).lists().saved;
        if !from_config && !saved.contains(host) {
            assert((seq![host] + saved)[0] == host);
        }
    }
}

/// The bar to undo is drawn as long as undoing works, names the host, and goes with the
/// record; its password is then given up.
pub proof fn undo_bar_is_drawn_while_it_works(
    s: &mut HostState,
    now_ms: u64,
    label: &str,
    fx: &mut Fx,
    r: Option<UndoBar>,
    t: &mut HostState,
    fx2: &mut Fx,
)
    requires
        call_ensures(HostState::draw_ssh_delete_undo, (s, now_ms, label, fx), r),
        call_ensures(HostState::expire_ssh_delete_undo, (t, fx2), ()),
    ensures
        r is Some <==> (old(s).undo matches Some(u) && now_ms < u.started_at_ms + 8000),
        r matches Some(bar) ==> final(s).undo_bar && final(s).undo == old(s).undo && bar.message@
            == undo_text(label@, old(s).undo->0.from_config) && bar.hovered == old(s).undo_hover,
        r is None ==> final(s).undo is None && !final(s).undo_bar,
        r is None && old(s).undo is Some ==> texts(final(s).expired_credentials@) == texts(
            old(s).expired_credentials@,
        ).push(old(s).undo->0.host@),
        final(s).lists() == old(s).lists() && final(s).listed == old(s).listed,
        final(t).undo is None && !final(t).undo_bar && !final(t).undo_hover,
        old(t).undo matches Some(u) ==> texts(final(t).expired_credentials@) == texts(
            old(t).expired_credentials@,
        ).push(u.host@),
        final(t).lists() == old(t).lists(),
{
}

} // verus!
