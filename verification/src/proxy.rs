//! The network page: the proxy for connections, its fields, scan and test.
use crate::fields::{spliced, TextField};
use crate::fx::{Fx, Requests};
use crate::page::{PageState, TextDrag};
use crate::providers::next_seq;
use crate::slots::{accepted_chars, SlotRule};
use crate::text::{concat2, same_text, slot_cells, slot_width, slot_width_of, text_of, texts};
use crate::words::{trim, trimmed};
use vstd::prelude::*;

verus! {

/// Longest value of a proxy field, in characters.
pub const PROXY_FIELD_MAX: usize = 256;

/// How connections find their proxy.
#[derive(Clone, Copy, Debug, PartialEq, Eq, Structural)]
pub enum ProxyMode {
    System,
    Custom,
    Other(u8),
}

/// Which proxy a custom setting names: one that was found, an address, a host to jump
/// over, or a command.
#[derive(Clone, Copy, Debug, PartialEq, Eq, Structural)]
pub enum ProxyChoice {
    Detected(usize),
    Manual,
    Jump,
    Command,
}

/// The protocol of an address.
#[derive(Clone, Copy, Debug, PartialEq, Eq, Structural)]
pub enum ManualProxyProtocol {
    Socks5,
    Other(u8),
}

/// The test of the proxy: its outcome is a code.
#[derive(Clone, Copy, Debug, PartialEq, Eq, Structural)]
pub enum ProxyTestStatus {
    Idle,
    Running,
    Complete { outcome: u32, elapsed_ms: u64 },
}

/// Where the proxy of the system was found.
#[derive(Clone, Copy, Debug, PartialEq, Eq, Structural)]
pub enum SystemProxySource {
    Environment,
    Registry,
}

/// The network page. The fields hold what they show while they are edited: the address,
/// the hosts without a proxy, and the command. `system` is the proxy of the system that
/// was found, with whether the registry has it.
#[derive(Debug)]
pub struct ProxyState {
    pub mode: ProxyMode,
    pub choice: ProxyChoice,
    pub protocol: ManualProxyProtocol,
    pub url: String,
    pub no_proxy: String,
    pub fields: Vec<TextField>,
    pub focus: Option<usize>,
    pub backup: (String, String),
    pub found: Vec<String>,
    pub scanning: bool,
    pub scan_request: bool,
    pub test_seq: u64,
    pub test_request: Option<u64>,
    pub test_status: ProxyTestStatus,
    pub system: Option<(String, bool)>,
}

/// What the layout of the page needs to know.
#[derive(Clone, Copy, Debug, PartialEq, Eq, Structural)]
pub struct ProxyPaneState {
    pub mode: ProxyMode,
    pub choice: ProxyChoice,
    pub found_count: usize,
    pub scanning: bool,
    pub override_count: usize,
}

/// What an edit asks for: an address that has to be put together with its protocol and
/// handed to `set_manual_url`.
#[derive(Debug)]
pub struct ManualEdit {
    pub protocol: ManualProxyProtocol,
    pub address: String,
}

/// An address holds no white space; the other fields may.
pub open spec fn proxy_rule(index: usize) -> SlotRule {
    SlotRule { max: PROXY_FIELD_MAX, spaces: index != 0 }
}

/// The columns of the last `n` characters, where every character takes one at least.
pub open spec fn tail_cols(s: Seq<char>, n: int) -> nat
    decreases n,
{
    if n <= 0 {
        0
    } else {
        tail_cols(s, n - 1) + slot_width(s[s.len() - n])
    }
}

/// Whether the last `n` characters are the longest end that fits into `max_cols`.
pub open spec fn longest_tail(s: Seq<char>, n: int, max_cols: nat) -> bool {
    &&& 0 <= n <= s.len()
    &&& tail_cols(s, n) <= max_cols
    &&& n < s.len() ==> tail_cols(s, n + 1) > max_cols
}

/// How many characters a field hides at its front: it shows the longest end that fits,
/// or starts at the caret where that is further left.
pub fn proxy_hidden_chars(text: &Vec<char>, max_cols: usize, caret: usize) -> (hidden: usize)
    ensures
        forall|n: int|
            #[trigger] longest_tail(text@, n, max_cols as nat) ==> hidden == (if caret
                >= text@.len() - n {
                text@.len() - n
            } else {
                caret as int
            }),
        exists|n: int| #[trigger] longest_tail(text@, n, max_cols as nat),
{
    let total: usize = text.len();
    let mut cols: usize = 0;
    let mut tail: usize = 0;
    let mut full: bool = false;
    while tail < total && !full
        invariant
            total == text@.len(),
            tail <= total,
            cols == tail_cols(text@, tail as int),
            cols <= max_cols,
            full ==> tail < total && tail_cols(text@, tail + 1) > max_cols,
        decreases total - tail, if full { 0int } else { 1int },
    {
        let w: usize = slot_width_of(text[total - tail - 1]);
        proof {
            assert(text@[total - tail - 1] == text@[text@.len() - (tail + 1)]);
        }
        if w > max_cols - cols {
            full = true;
        } else {
            cols += w;
            tail += 1;
        }
    }
    proof {
        assert(longest_tail(text@, tail as int, max_cols as nat));
        assert forall|n: int| #[trigger] longest_tail(text@, n, max_cols as nat) implies n
            == tail by {
            if n < tail {
                lemma_tail_cols_grow(text@, n + 1, tail as int);
            }
            if tail < n {
                lemma_tail_cols_grow(text@, tail + 1, n);
            }
        }
    }
    let hidden: usize = total - tail;
    if caret >= hidden {
        hidden
    } else {
        caret
    }
}

proof fn lemma_tail_cols_grow(s: Seq<char>, n: int, m: int)
    requires
        0 <= n <= m,
    ensures
        tail_cols(s, n) <= tail_cols(s, m),
    decreases m - n,
{
    if n < m {
        lemma_tail_cols_grow(s, n, m - 1);
    }
}

/// The place of the first text that equals `x`.
pub open spec fn place_of_text(list: Seq<Seq<char>>, x: Seq<char>) -> Option<int> {
    crate::hosts::first_index(list, x)
}

/// Which kind of proxy a stored address stands for.
pub open spec fn choice_of(
    url: Seq<char>,
    found: Seq<Seq<char>>,
    is_jump: bool,
    is_command: bool,
) -> ProxyChoice {
    match place_of_text(found, url) {
        Some(i) => ProxyChoice::Detected(i as usize),
        None => if is_jump {
            ProxyChoice::Jump
        } else if is_command {
            ProxyChoice::Command
        } else {
            ProxyChoice::Manual
        },
    }
}

/// Which kind of proxy a stored address stands for: one that was found, or what its
/// prefix says.
pub fn choice_for(url: &str, found: &Vec<String>, is_jump: bool, is_command: bool) -> (c:
    ProxyChoice)
    ensures
        c == choice_of(url@, texts(found@), is_jump, is_command),
{
    match crate::hosts::host_position(found, url) {
        Some(i) => ProxyChoice::Detected(i),
        None => if is_jump {
            ProxyChoice::Jump
        } else if is_command {
            ProxyChoice::Command
        } else {
            ProxyChoice::Manual
        },
    }
}

impl ProxyState {
    pub open spec fn wf(self) -> bool {
        &&& self.fields@.len() == 3
        &&& self.focus matches Some(i) ==> i < 3
        &&& forall|i: int| 0 <= i < 3 ==> (#[trigger] self.fields@[i]).wf()
    }

    /// This state with every answer of an earlier test ignored from now on.
    pub open spec fn untested(self) -> ProxyState {
        ProxyState {
            test_seq: next_seq(self.test_seq),
            test_request: None,
            test_status: ProxyTestStatus::Idle,
            ..self
        }
    }

    fn invalidate_proxy_test(&mut self)
        ensures
            *final(self) == old(self).untested(),
    {
        self.test_seq = self.test_seq.wrapping_add(1);
        self.test_request = None;
        self.test_status = ProxyTestStatus::Idle;
    }

    /// Chooses how connections find their proxy; `mode` is `None` where there is no such
    /// row. The list closes.
    pub fn set_ssh_proxy_mode(&mut self, mode: Option<ProxyMode>, page: &mut PageState, fx: &mut Fx)
        ensures
            *final(page) == (PageState { dropdown: None, ..*old(page) }),
            match mode {
                Some(m) if m != old(self).mode => {
                    &&& *final(self) == (ProxyState { mode: m, ..old(self).untested() })
                    &&& *final(fx) == (if m is System {
                        old(fx).saved().asking(
                            Requests { probe_system_proxy: true, ..old(fx).requests },
                        ).touched()
                    } else {
                        old(fx).saved().touched()
                    })
                },
                _ => *final(self) == *old(self) && *final(fx) == old(fx).touched(),
            },
    {
        if let Some(m) = mode {
            if m != self.mode {
                self.mode = m;
                self.invalidate_proxy_test();
                fx.save();
                if m == ProxyMode::System {
                    fx.ask(Requests { probe_system_proxy: true, ..fx.requests });
                }
            }
        }
        page.dropdown = None;
        fx.touch();
    }

    pub fn ssh_proxy_pane_state(&self) -> (p: ProxyPaneState)
        ensures
            p == (ProxyPaneState {
                mode: self.mode,
                choice: self.choice,
                found_count: self.found@.len() as usize,
                scanning: self.scanning,
                override_count: 0,
            }),
    {
        ProxyPaneState {
            mode: self.mode,
            choice: self.choice,
            found_count: self.found.len(),
            scanning: self.scanning,
            override_count: 0,
        }
    }

    /// `now` is this state once the focused field was left. `command` is the command of
    /// the trimmed address, empty where it names none.
    pub open spec fn field_left(self, now: ProxyState, command: Seq<char>) -> bool {
        if self.focus is None {
            now == self
        } else {
            let bare = trimmed(command);
            &&& now == (ProxyState { focus: None, url: now.url, no_proxy: now.no_proxy, ..self })
            &&& now.no_proxy@ == trimmed(self.no_proxy@)
            &&& now.url@ == (if self.choice is Command {
                if bare.len() == 0 {
                    Seq::<char>::empty()
                } else {
                    "command:"@ + bare
                }
            } else {
                trimmed(self.url@)
            })
        }
    }

    /// What leaving the focused field asks for.
    pub open spec fn left_fx(self, fx: Fx) -> Fx {
        if self.focus is None {
            fx
        } else {
            fx.saved().marked()
        }
    }

    /// Leaves the focused field: its value is trimmed and written down. `command` is the
    /// command that the trimmed address names.
    pub fn commit_ssh_proxy_field(&mut self, command: &str, fx: &mut Fx)
        requires
            old(self).wf(),
        ensures
            final(self).wf(),
            old(self).field_left(*final(self), command@),
            *final(fx) == old(self).left_fx(*old(fx)),
    {
        if self.focus.is_none() {
            return;
        }
        self.focus = None;
        self.no_proxy = trim(self.no_proxy.as_str());
        if self.choice == ProxyChoice::Command {
            let bare = trim(command);
            if bare.as_str().is_empty() {
                self.url = String::new();
                proof {
                    assert(self.url@ =~= Seq::<char>::empty());
                }
            } else {
                self.url = concat2("command:", bare.as_str());
            }
        } else {
            self.url = trim(self.url.as_str());
        }
        fx.save();
        fx.mark();
    }

    /// Asks for a test of the proxy, unless one runs. The focused field is left first, so
    /// that the test sees what the next connection would.
    pub fn request_proxy_test(&mut self, command: &str, fx: &mut Fx)
        requires
            old(self).wf(),
        ensures
            final(self).wf(),
            old(self).test_status is Running ==> old(self).field_left(*final(self), command@)
                && *final(fx) == old(self).left_fx(*old(fx)),
            !(old(self).test_status is Running) ==> {
                let seq = next_seq(old(self).test_seq);
                &&& final(self).test_seq == seq
                &&& final(self).test_request == Some(seq)
                &&& final(self).test_status is Running
                &&& old(self).field_left(
                    ProxyState {
                        test_seq: old(self).test_seq,
                        test_request: old(self).test_request,
                        test_status: old(self).test_status,
                        ..*final(self)
                    },
                    command@,
                )
                &&& *final(fx) == old(self).left_fx(*old(fx)).touched()
            },
    {
        self.commit_ssh_proxy_field(command, fx);
        if self.test_status == ProxyTestStatus::Running {
            return;
        }
        self.test_seq = self.test_seq.wrapping_add(1);
        self.test_request = Some(self.test_seq);
        self.test_status = ProxyTestStatus::Running;
        fx.touch();
    }

    /// Hands the waiting test out, once.
    pub fn take_proxy_test_request(&mut self) -> (r: Option<u64>)
        ensures
            r == old(self).test_request,
            *final(self) == (ProxyState { test_request: None, ..*old(self) }),
    {
        self.test_request.take()
    }

    /// Takes over the outcome of a test. An answer to an earlier test is ignored.
    pub fn proxy_test_done(
        &mut self,
        request_id: u64,
        outcome: u32,
        elapsed_ms: u64,
        fx: &mut Fx,
    )
        ensures
            ({
                let current = request_id == old(self).test_seq && old(self).test_status is Running;
                &&& current ==> *final(self) == (ProxyState {
                    test_status: ProxyTestStatus::Complete { outcome, elapsed_ms },
                    ..*old(self)
                }) && *final(fx) == old(fx).touched()
                &&& !current ==> *final(self) == *old(self) && *final(fx) == *old(fx)
            }),
    {
        if request_id != self.test_seq || self.test_status != ProxyTestStatus::Running {
            return;
        }
        self.test_status = ProxyTestStatus::Complete { outcome, elapsed_ms };
        fx.touch();
    }

    /// What a row of the list of proxies stands for: those found come first.
    pub open spec fn picked(self, index: usize) -> Option<ProxyChoice> {
        if index < self.found@.len() {
            Some(ProxyChoice::Detected(index))
        } else if index == self.found@.len() {
            Some(ProxyChoice::Manual)
        } else if index == self.found@.len() + 1 {
            Some(ProxyChoice::Jump)
        } else if index == self.found@.len() + 2 {
            Some(ProxyChoice::Command)
        } else {
            None
        }
    }

    fn pick(&self, index: usize) -> (r: Option<ProxyChoice>)
        ensures
            r == self.picked(index),
    {
        let count: usize = self.found.len();
        if index < count {
            return Some(ProxyChoice::Detected(index));
        }
        let rest: usize = index - count;
        if rest == 0 {
            Some(ProxyChoice::Manual)
        } else if rest == 1 {
            Some(ProxyChoice::Jump)
        } else if rest == 2 {
            Some(ProxyChoice::Command)
        } else {
            None
        }
    }

    /// Chooses a proxy from the list. What another kind of proxy left behind is cleared.
    pub fn set_ssh_proxy_link_pick(&mut self, index: usize, fx: &mut Fx)
        requires
            old(self).wf(),
        ensures
            final(self).wf(),
            match old(self).picked(index) {
                None => *final(self) == *old(self) && *final(fx) == *old(fx),
                Some(choice) if choice == old(self).choice => *final(self) == *old(self)
                    && *final(fx) == old(fx).touched(),
                Some(choice) => {
                    &&& *final(self) == (ProxyState {
                        choice,
                        focus: None,
                        url: final(self).url,
                        protocol: if choice is Manual {
                            ManualProxyProtocol::Socks5
                        } else {
                            old(self).protocol
                        },
                        ..*old(self)
                    })
                    &&& final(self).url@ == (if choice is Detected {
                        old(self).found@[index as int]@
                    } else {
                        Seq::<char>::empty()
                    })
                    &&& *final(fx) == old(fx).saved().touched()
                },
            },
    {
        let choice: ProxyChoice = match self.pick(index) {
            Some(c) => c,
            None => {
                return;
            },
        };
        if choice != self.choice {
            self.choice = choice;
            self.focus = None;
            if index < self.found.len() {
                self.url = self.found[index].clone();
            } else {
                self.url = String::new();
                proof {
                    assert(self.url@ =~= Seq::<char>::empty());
                }
            }
            if choice == ProxyChoice::Manual {
                self.protocol = ManualProxyProtocol::Socks5;
            }
            fx.save();
        }
        fx.touch();
    }

    /// Asks for a scan for local proxies, unless one runs.
    pub fn request_local_proxy_scan(&mut self, fx: &mut Fx)
        ensures
            old(self).scanning ==> *final(self) == *old(self) && *final(fx) == *old(fx),
            !old(self).scanning ==> *final(self) == (ProxyState {
                scanning: true,
                scan_request: true,
                ..*old(self)
            }) && *final(fx) == old(fx).touched(),
    {
        if self.scanning {
            return;
        }
        self.scanning = true;
        self.scan_request = true;
        fx.touch();
    }

    /// This state once the page was opened: a scan waits where no proxy is known.
    pub open spec fn searched(self) -> ProxyState {
        if self.found@.len() == 0 && !self.scanning {
            ProxyState { scanning: true, scan_request: true, ..self }
        } else {
            self
        }
    }

    /// What opening the page asks for.
    pub open spec fn searched_fx(self, fx: Fx) -> Fx {
        let asked = fx.asking(Requests { probe_system_proxy: true, ..fx.requests });
        if self.found@.len() == 0 && !self.scanning {
            asked.touched()
        } else {
            asked
        }
    }

    /// Looks for the proxy of the system, and for local ones where none is known.
    pub fn look_for_proxies(&mut self, fx: &mut Fx)
        ensures
            *final(self) == old(self).searched(),
            *final(fx) == old(self).searched_fx(*old(fx)),
    {
        fx.ask(Requests { probe_system_proxy: true, ..fx.requests });
        if self.found.len() == 0 {
            self.request_local_proxy_scan(fx);
        }
    }

    /// Takes over the proxy of the system, with the place where it was found.
    pub fn refresh_system_proxy_probe(&mut self, found: Option<(String, SystemProxySource)>)
        ensures
            *final(self) == (ProxyState {
                system: match found {
                    Some((url, source)) => Some((url, source is Registry)),
                    None => None,
                },
                ..*old(self)
            }),
    {
        self.system = match found {
            Some((url, source)) => Some((url, matches!(source, SystemProxySource::Registry))),
            None => None,
        };
    }

    pub fn take_local_proxy_scan_request(&mut self) -> (r: bool)
        ensures
            r == old(self).scan_request,
            *final(self) == (ProxyState { scan_request: false, ..*old(self) }),
    {
        let r: bool = self.scan_request;
        self.scan_request = false;
        r
    }

    /// Whether the first proxy of a scan is taken: nothing was set so far.
    pub open spec fn adopts(self, proxies: Seq<String>) -> bool {
        self.mode is Custom && trimmed(self.url@).len() == 0 && proxies.len() > 0
    }

    /// Takes over the proxies that a scan found. `is_jump` and `is_command` tell what the
    /// prefix of the present address says.
    pub fn local_proxy_scan_done(
        &mut self,
        proxies: Vec<String>,
        is_jump: bool,
        is_command: bool,
        fx: &mut Fx,
    )
        ensures
            ({
                let adopts = old(self).adopts(proxies@);
                let url = if adopts {
                    proxies@[0]@
                } else {
                    old(self).url@
                };
                &&& *final(self) == (ProxyState {
                    scanning: false,
                    found: proxies,
                    url: final(self).url,
                    choice: final(self).choice,
                    ..*old(self)
                })
                &&& final(self).url@ == url
                &&& adopts ==> final(self).choice == ProxyChoice::Detected(0)
                &&& !adopts ==> final(self).choice == choice_of(
                    url,
                    texts(proxies@),
                    is_jump,
                    is_command,
                )
                &&& *final(fx) == (if adopts {
                    old(fx).saved().touched()
                } else {
                    old(fx).touched()
                })
            }),
    {
        self.scanning = false;
        let bare = trim(self.url.as_str());
        if self.mode == ProxyMode::Custom && bare.as_str().is_empty() && proxies.len() > 0 {
            self.url = proxies[0].clone();
            fx.save();
            self.found = proxies;
            self.choice = ProxyChoice::Detected(0);
        } else {
            self.choice = choice_for(self.url.as_str(), &proxies, is_jump, is_command);
            self.found = proxies;
        }
        fx.touch();
    }

    /// Chooses the host to jump over; `None` where there is no such row. The list closes.
    pub fn set_ssh_proxy_jump_host(
        &mut self,
        destination: Option<&str>,
        page: &mut PageState,
        fx: &mut Fx,
    )
        ensures
            *final(page) == (PageState { dropdown: None, ..*old(page) }),
            match destination {
                Some(d) if "jump:"@ + d@ != old(self).url@ => {
                    &&& *final(self) == (ProxyState { url: final(self).url, ..*old(self) })
                    &&& final(self).url@ == "jump:"@ + d@
                    &&& *final(fx) == old(fx).saved().touched()
                },
                _ => *final(self) == *old(self) && *final(fx) == old(fx).touched(),
            },
    {
        if let Some(d) = destination {
            let value = concat2("jump:", d);
            if !same_text(self.url.as_str(), value.as_str()) {
                self.url = value;
                fx.save();
            }
        }
        page.dropdown = None;
        fx.touch();
    }

    /// The address that the page shows and that another protocol keeps: the one of a
    /// manual proxy. `address` is what the stored value holds behind its protocol; what
    /// stands for a jump or a command is no address.
    pub fn manual_address(&self, address: &str) -> (s: String)
        ensures
            s@ == (if self.choice is Manual {
                address@
            } else {
                Seq::<char>::empty()
            }),
    {
        if self.choice == ProxyChoice::Manual {
            address.to_owned()
        } else {
            let none = String::new();
            proof {
                assert(none@ =~= Seq::<char>::empty());
            }
            none
        }
    }

    /// Changes the protocol and keeps the address. `url` is the address with the new
    /// protocol, `None` where there is no such row.
    pub fn set_ssh_proxy_protocol(
        &mut self,
        protocol: Option<ManualProxyProtocol>,
        url: &str,
        command: &str,
        page: &mut PageState,
        fx: &mut Fx,
    )
        requires
            old(self).wf(),
        ensures
            final(self).wf(),
            protocol is None ==> *final(self) == *old(self) && *final(page) == *old(page)
                && *final(fx) == *old(fx),
            protocol matches Some(p) ==> {
                &&& *final(page) == (PageState { dropdown: None, ..*old(page) })
                &&& *final(self) == (ProxyState {
                    protocol: p,
                    url: final(self).url,
                    no_proxy: final(self).no_proxy,
                    choice: ProxyChoice::Manual,
                    focus: None,
                    ..old(self).untested()
                })
                &&& final(self).url@ == url@
                &&& final(self).no_proxy@ == (if old(self).focus is Some {
                    trimmed(old(self).no_proxy@)
                } else {
                    old(self).no_proxy@
                })
                &&& *final(fx) == old(fx).saved().touched()
            },
    {
        if let Some(p) = protocol {
            self.commit_ssh_proxy_field(command, fx);
            self.protocol = p;
            self.url = url.to_owned();
            self.choice = ProxyChoice::Manual;
            self.invalidate_proxy_test();
            page.dropdown = None;
            fx.save();
            fx.touch();
        }
    }

    /// Takes over an address that was put together with its protocol.
    pub fn set_manual_url(&mut self, url: String)
        ensures
            *final(self) == (ProxyState { url, choice: ProxyChoice::Manual, ..*old(self) }),
    {
        self.url = url;
        self.choice = ProxyChoice::Manual;
    }

    /// `now` is this state with `i` focused, its field showing `shown`, and the present
    /// values kept for an escape.
    pub open spec fn focused_on(self, now: ProxyState, i: usize, shown: Seq<char>) -> bool {
        let f = now.fields@[i as int];
        &&& now == (ProxyState { focus: Some(i), fields: now.fields, backup: now.backup, ..self })
        &&& now.fields@ == self.fields@.update(i as int, f)
        &&& f.text@ == shown
        &&& f.caret == shown.len()
        &&& f.anchor is None
        &&& now.backup.0@ == self.url@
        &&& now.backup.1@ == self.no_proxy@
    }

    /// What the field `i` stands for: the address of a manual proxy, the exceptions, or the
    /// command. `parts` are what the stored value holds as an address and as a command.
    pub open spec fn field_text(self, i: usize, parts: (Seq<char>, Seq<char>)) -> Seq<char> {
        if i == 0 {
            if self.choice is Manual {
                parts.0
            } else {
                Seq::<char>::empty()
            }
        } else if i == 1 {
            self.no_proxy@
        } else {
            parts.1
        }
    }

    pub fn ssh_proxy_field_text(&self, index: usize, parts: (&str, &str)) -> (s: String)
        ensures
            s@ == self.field_text(index, (parts.0@, parts.1@)),
    {
        if index == 0 {
            self.manual_address(parts.0)
        } else if index == 1 {
            self.no_proxy.clone()
        } else {
            parts.1.to_owned()
        }
    }

    /// The caret of a field and the other end of its selection; an index past the fields
    /// goes to the last one.
    pub fn ssh_proxy_cursor(&self, index: usize) -> (c: (usize, Option<usize>))
        requires
            self.wf(),
        ensures
            ({
                let f = self.fields@[if index < 2 {
                    index as int
                } else {
                    2
                }];
                c == (f.caret, f.anchor)
            }),
    {
        let i: usize = if index < 2 {
            index
        } else {
            2
        };
        let f = &self.fields[i];
        (f.caret, f.anchor)
    }

    /// Whether leaving the field and focusing another one leads to `now`.
    pub open spec fn refocused(
        self,
        now: ProxyState,
        i: usize,
        parts: (Seq<char>, Seq<char>),
        command: Seq<char>,
    ) -> bool {
        exists|mid: ProxyState|
            self.field_left(mid, command) && #[trigger] mid.focused_on(
                now,
                i,
                mid.field_text(i, parts),
            )
    }

    /// Focuses a field, leaving the one that had the focus, so that it shows what it stands
    /// for. `parts` are what the stored value holds as an address and as a command once
    /// the other field was left.
    pub fn focus_ssh_proxy_field(
        &mut self,
        index: usize,
        parts: (&str, &str),
        command: &str,
        fx: &mut Fx,
    )
        requires
            old(self).wf(),
        ensures
            final(self).wf(),
            ({
                let i = if index < 2 {
                    index
                } else {
                    2
                };
                &&& old(self).focus == Some(i) ==> *final(self) == *old(self)
                    && *final(fx) == *old(fx)
                &&& old(self).focus != Some(i) ==> old(self).refocused(
                    *final(self),
                    i,
                    (parts.0@, parts.1@),
                    command@,
                ) && *final(fx) == old(self).left_fx(*old(fx)).following().marked()
            }),
    {
        let i: usize = if index < 2 {
            index
        } else {
            2
        };
        if let Some(focus) = self.focus {
            if focus == i {
                return;
            }
        }
        self.commit_ssh_proxy_field(command, fx);
        let ghost mid = *self;
        self.backup = (self.url.clone(), self.no_proxy.clone());
        self.focus = Some(i);
        let shown: String = self.ssh_proxy_field_text(i, parts);
        self.fields.set(i, TextField::holding(shown.as_str()));
        fx.follow_caret();
        fx.mark();
        proof {
            assert(mid.focused_on(*self, i, mid.field_text(i, (parts.0@, parts.1@))));
        }
    }

    /// `now` is this state with the field `i` changed to `now.fields[i]`; what the field
    /// stands for follows it, save an address, which has to be put together.
    pub open spec fn edited(self, now: ProxyState, i: usize, edit: Option<ManualEdit>) -> bool {
        let f = now.fields@[i as int];
        &&& now == (ProxyState {
            fields: now.fields,
            url: now.url,
            no_proxy: now.no_proxy,
            ..self.untested()
        })
        &&& now.fields@ == self.fields@.update(i as int, f)
        &&& i == 0 ==> {
            &&& now.url == self.url
            &&& now.no_proxy == self.no_proxy
            &&& edit matches Some(e) && e.protocol == self.protocol && e.address@ == f.text@
        }
        &&& i == 1 ==> now.url == self.url && now.no_proxy@ == f.text@ && edit is None
        &&& i == 2 ==> now.url@ == "command:"@ + f.text@ && now.no_proxy == self.no_proxy
            && edit is None
    }

    /// What an edit asks for.
    pub open spec fn edited_fx(fx: Fx) -> Fx {
        fx.saved().following().touched()
    }

    fn take_over_field(&mut self, i: usize, fx: &mut Fx) -> (edit: Option<ManualEdit>)
        requires
            old(self).wf(),
            i < 3,
        ensures
            final(self).wf(),
            old(self).edited(*final(self), i, edit),
            final(self).fields == old(self).fields,
            *final(fx) == ProxyState::edited_fx(*old(fx)),
    {
        let text = text_of(&self.fields[i].text);
        let mut edit: Option<ManualEdit> = None;
        if i == 0 {
            edit = Some(ManualEdit { protocol: self.protocol, address: text });
        } else if i == 1 {
            self.no_proxy = text;
        } else {
            self.url = concat2("command:", text.as_str());
        }
        self.invalidate_proxy_test();
        fx.save();
        fx.follow_caret();
        fx.touch();
        proof {
            assert(self.fields@ =~= old(self).fields@.update(i as int, self.fields@[i as int]));
        }
        edit
    }

    /// Types text into the focused field, as far as it is taken. Where the field would get
    /// too long its text stays; only the caret moves.
    pub fn ssh_proxy_field_paste(&mut self, text: &str, fx: &mut Fx) -> (edit: Option<ManualEdit>)
        requires
            old(self).wf(),
            old(self).focus matches Some(i) ==> old(self).fields@[i as int].text@.len() + text@.len()
                <= usize::MAX,
        ensures
            final(self).wf(),
            match old(self).focus {
                None => *final(self) == *old(self) && *final(fx) == *old(fx) && edit is None,
                Some(i) => {
                    let f = old(self).fields@[i as int];
                    let clean = proxy_rule(i).accepted(text@);
                    let after = spliced(f.text@, f.selection().0, f.selection().1, clean);
                    let caret = f.selection().0 + clean.len();
                    if clean.len() == 0 {
                        *final(self) == *old(self) && *final(fx) == *old(fx) && edit is None
                    } else if after.len() > PROXY_FIELD_MAX {
                        let now = final(self).fields@[i as int];
                        &&& *final(self) == (ProxyState {
                            fields: final(self).fields,
                            ..*old(self)
                        })
                        &&& final(self).fields@ == old(self).fields@.update(i as int, now)
                        &&& now.text == f.text
                        &&& now.caret == (if caret <= f.text@.len() {
                            caret
                        } else {
                            f.text@.len() as int
                        })
                        &&& now.anchor is None
                        &&& *final(fx) == *old(fx)
                        &&& edit is None
                    } else {
                        &&& old(self).edited(*final(self), i, edit)
                        &&& final(self).fields@[i as int].text@ == after
                        &&& final(self).fields@[i as int].caret == f.selection().0 + clean.len()
                        &&& final(self).fields@[i as int].anchor is None
                        &&& *final(fx) == ProxyState::edited_fx(*old(fx))
                    }
                },
            },
    {
        let index: usize = match self.focus {
            Some(i) => i,
            None => {
                return None;
            },
        };
        let rule = SlotRule { max: PROXY_FIELD_MAX, spaces: index != 0 };
        let clean = accepted_chars(rule, text);
        if clean.len() == 0 {
            return None;
        }
        let mut f = TextField {
            text: crate::slots::copy_chars(&self.fields[index].text),
            caret: self.fields[index].caret,
            anchor: self.fields[index].anchor,
        };
        f.insert(&clean);
        if f.text.len() > PROXY_FIELD_MAX {
            self.fields[index].place(f.caret, false);
            return None;
        }
        let ghost before = *self;
        self.fields.set(index, f);
        let edit = self.take_over_field(index, fx);
        proof {
            assert(self.fields@ =~= before.fields@.update(index as int, self.fields@[index as int]));
        }
        edit
    }

    /// Types a character into the focused field, where it is taken. Where the field would
    /// get too long its text stays; only the caret moves.
    pub fn ssh_proxy_field_push(&mut self, ch: char, fx: &mut Fx) -> (edit: Option<ManualEdit>)
        requires
            old(self).wf(),
            old(self).focus matches Some(i) ==> old(self).fields@[i as int].text@.len() < usize::MAX,
        ensures
            final(self).wf(),
            match old(self).focus {
                None => *final(self) == *old(self) && *final(fx) == *old(fx) && edit is None,
                Some(i) => {
                    let f = old(self).fields@[i as int];
                    let after = spliced(f.text@, f.selection().0, f.selection().1, seq![ch]);
                    &&& !proxy_rule(i).takes(ch) ==> *final(self) == *old(self) && *final(fx)
                        == *old(fx) && edit is None
                    &&& proxy_rule(i).takes(ch) && after.len() <= PROXY_FIELD_MAX ==> {
                        &&& old(self).edited(*final(self), i, edit)
                        &&& final(self).fields@[i as int].text@ == after
                        &&& final(self).fields@[i as int].caret == f.selection().0 + 1
                        &&& final(self).fields@[i as int].anchor is None
                        &&& *final(fx) == ProxyState::edited_fx(*old(fx))
                    }
                    &&& proxy_rule(i).takes(ch) && after.len() > PROXY_FIELD_MAX ==> {
                        let now = final(self).fields@[i as int];
                        let caret = f.selection().0 + 1;
                        &&& *final(self) == (ProxyState {
                            fields: final(self).fields,
                            ..*old(self)
                        })
                        &&& final(self).fields@ == old(self).fields@.update(i as int, now)
                        &&& now.text == f.text
                        &&& now.caret == (if caret <= f.text@.len() {
                            caret
                        } else {
                            f.text@.len() as int
                        })
                        &&& now.anchor is None
                        &&& *final(fx) == *old(fx)
                        &&& edit is None
                    }
                },
            },
    {
        let mut one: Vec<char> = Vec::new();
        one.push(ch);
        let text = text_of(&one);
        proof {
            assert(one@ =~= seq![ch]);
            if let Some(i) = self.focus {
                let rule = proxy_rule(i);
                assert(seq![ch].drop_last() =~= Seq::<char>::empty());
                assert(rule.accepted(Seq::<char>::empty()) =~= Seq::<char>::empty());
                if rule.takes(ch) {
                    assert(rule.accepted(seq![ch]) =~= seq![ch]);
                }
            }
        }
        self.ssh_proxy_field_paste(text.as_str(), fx)
    }

    pub fn ssh_proxy_field_backspace(&mut self, fx: &mut Fx) -> (edit: Option<ManualEdit>)
        requires
            old(self).wf(),
        ensures
            final(self).wf(),
            match old(self).focus {
                None => *final(self) == *old(self) && *final(fx) == *old(fx) && edit is None,
                Some(i) => {
                    let now = final(self).fields@[i as int];
                    &&& old(self).edited(*final(self), i, edit)
                    &&& (now.text@, now.caret as int) == old(self).fields@[i as int].erased_back()
                    &&& now.anchor is None
                    &&& *final(fx) == ProxyState::edited_fx(*old(fx))
                },
            },
    {
        let index: usize = match self.focus {
            Some(i) => i,
            None => {
                return None;
            },
        };
        let ghost before = *self;
        self.fields[index].backspace();
        let edit = self.take_over_field(index, fx);
        proof {
            assert(self.fields@ =~= before.fields@.update(index as int, self.fields@[index as int]));
        }
        edit
    }

    pub fn ssh_proxy_field_delete_forward(&mut self, fx: &mut Fx) -> (edit: Option<ManualEdit>)
        requires
            old(self).wf(),
        ensures
            final(self).wf(),
            match old(self).focus {
                None => *final(self) == *old(self) && *final(fx) == *old(fx) && edit is None,
                Some(i) => {
                    let f = old(self).fields@[i as int];
                    let now = final(self).fields@[i as int];
                    &&& old(self).edited(*final(self), i, edit)
                    &&& now.text@ == f.erased_forward()
                    &&& now.caret == f.selection().0
                    &&& now.anchor is None
                    &&& *final(fx) == ProxyState::edited_fx(*old(fx))
                },
            },
    {
        let index: usize = match self.focus {
            Some(i) => i,
            None => {
                return None;
            },
        };
        let ghost before = *self;
        self.fields[index].delete_forward();
        let edit = self.take_over_field(index, fx);
        proof {
            assert(self.fields@ =~= before.fields@.update(index as int, self.fields@[index as int]));
        }
        edit
    }

    /// `now` is this state with the caret of the field `i` moved.
    pub open spec fn caret_moved(self, now: ProxyState, i: usize) -> bool {
        let f = now.fields@[i as int];
        &&& now == (ProxyState { fields: now.fields, ..self })
        &&& now.fields@ == self.fields@.update(i as int, f)
        &&& f.text == self.fields@[i as int].text
    }

    pub fn ssh_proxy_field_move(&mut self, forward: bool, extend: bool, fx: &mut Fx)
        requires
            old(self).wf(),
        ensures
            final(self).wf(),
            match old(self).focus {
                None => *final(self) == *old(self) && *final(fx) == *old(fx),
                Some(i) => {
                    let f = old(self).fields@[i as int];
                    let now = final(self).fields@[i as int];
                    &&& old(self).caret_moved(*final(self), i)
                    &&& now.caret == f.moved(
                        if forward {
                            1
                        } else {
                            -1
                        },
                        extend,
                    )
                    &&& now.anchor == f.anchored(extend)
                    &&& *final(fx) == old(fx).following().touched()
                },
            },
    {
        if let Some(index) = self.focus {
            let step: i32 = if forward {
                1
            } else {
                -1
            };
            self.fields[index].move_by(step, extend);
            fx.follow_caret();
            fx.touch();
        }
    }

    pub fn ssh_proxy_field_jump(&mut self, to_end: bool, extend: bool, fx: &mut Fx)
        requires
            old(self).wf(),
        ensures
            final(self).wf(),
            match old(self).focus {
                None => *final(self) == *old(self) && *final(fx) == *old(fx),
                Some(i) => {
                    let f = old(self).fields@[i as int];
                    let now = final(self).fields@[i as int];
                    &&& old(self).caret_moved(*final(self), i)
                    &&& now.caret == (if to_end {
                        f.text@.len() as int
                    } else {
                        0
                    })
                    &&& now.anchor == f.anchored(extend)
                    &&& *final(fx) == old(fx).following().touched()
                },
            },
    {
        if let Some(index) = self.focus {
            self.fields[index].jump(to_end, extend);
            fx.follow_caret();
            fx.touch();
        }
    }

    pub fn ssh_proxy_field_select_all(&mut self, fx: &mut Fx)
        requires
            old(self).wf(),
        ensures
            final(self).wf(),
            match old(self).focus {
                None => *final(self) == *old(self) && *final(fx) == *old(fx),
                Some(i) => {
                    let now = final(self).fields@[i as int];
                    &&& old(self).caret_moved(*final(self), i)
                    &&& now.caret == now.text@.len()
                    &&& now.anchor == Some(0usize)
                    &&& *final(fx) == old(fx).following().touched()
                },
            },
    {
        if let Some(index) = self.focus {
            self.fields[index].select_all();
            fx.follow_caret();
            fx.touch();
        }
    }

    pub fn ssh_proxy_field_selected_text(&self) -> (r: Option<String>)
        requires
            self.wf(),
        ensures
            match self.focus {
                None => r is None,
                Some(i) => {
                    let f = self.fields@[i as int];
                    &&& r is Some <==> f.has_selection()
                    &&& r matches Some(s) ==> s@ == f.text@.subrange(
                        f.selection().0,
                        f.selection().1,
                    )
                },
            },
    {
        match self.focus {
            Some(i) => self.fields[i].selected_text(),
            None => None,
        }
    }

    /// How many characters of a focused field are out of sight at its front, in a box of
    /// `max_cols` columns.
    pub fn ssh_proxy_hidden(&self, index: usize, max_cols: usize) -> (r: Option<usize>)
        requires
            self.wf(),
        ensures
            ({
                let i = if index < 2 {
                    index
                } else {
                    2
                };
                let f = self.fields@[i as int];
                &&& r is Some <==> self.focus == Some(i)
                &&& r matches Some(hidden) ==> forall|n: int|
                    #[trigger] longest_tail(f.text@, n, max_cols as nat) ==> hidden == (if f.caret
                        >= f.text@.len() - n {
                        f.text@.len() - n
                    } else {
                        f.caret as int
                    })
            }),
    {
        let i: usize = if index < 2 {
            index
        } else {
            2
        };
        match self.focus {
            Some(focus) => if focus == i {
                Some(proxy_hidden_chars(&self.fields[i].text, max_cols, self.fields[i].caret))
            } else {
                None
            },
            None => None,
        }
    }

    /// The field that an index stands for.
    pub open spec fn field_of(index: usize) -> usize {
        if index < 2 {
            index
        } else {
            2
        }
    }

    /// `now` is this state with the caret of the field before the character `at`, where it
    /// has the focus.
    pub open spec fn placed(self, now: ProxyState, index: usize, at: usize, extend: bool) -> bool {
        let i = ProxyState::field_of(index);
        let f = self.fields@[i as int];
        let g = now.fields@[i as int];
        &&& self.focus != Some(i) ==> now == self
        &&& self.focus == Some(i) ==> {
            &&& self.caret_moved(now, i)
            &&& g.caret == (if at <= f.text@.len() {
                at as int
            } else {
                f.text@.len() as int
            })
            &&& g.anchor == f.anchored(extend)
        }
    }

    /// What that asks for.
    pub open spec fn placed_fx(self, index: usize, fx: Fx) -> Fx {
        if self.focus == Some(ProxyState::field_of(index)) {
            fx.following().touched()
        } else {
            fx
        }
    }

    /// Puts the caret of a focused field before the character `at`.
    pub fn ssh_proxy_field_place(&mut self, index: usize, at: usize, extend: bool, fx: &mut Fx)
        requires
            old(self).wf(),
        ensures
            final(self).wf(),
            old(self).placed(*final(self), index, at, extend),
            *final(fx) == old(self).placed_fx(index, *old(fx)),
    {
        let i: usize = if index < 2 {
            index
        } else {
            2
        };
        let focused: bool = match self.focus {
            Some(focus) => focus == i,
            None => false,
        };
        if !focused {
            return;
        }
        self.fields[i].place(at, extend);
        fx.follow_caret();
        fx.touch();
    }

    /// Starts a selection drag in a field.
    pub fn begin_ssh_proxy_drag(
        &mut self,
        index: usize,
        at: usize,
        extend: bool,
        page: &mut PageState,
        fx: &mut Fx,
    )
        requires
            old(self).wf(),
        ensures
            final(self).wf(),
            old(self).placed(*final(self), index, at, extend),
            *final(page) == (PageState {
                text_drag: Some(
                    TextDrag::Proxy(
                        if index < 2 {
                            index
                        } else {
                            2
                        },
                    ),
                ),
                ..*old(page)
            }),
            *final(fx) == old(self).placed_fx(index, *old(fx)).following(),
    {
        self.ssh_proxy_field_place(index, at, extend, fx);
        page.text_drag = Some(
            TextDrag::Proxy(
                if index < 2 {
                    index
                } else {
                    2
                },
            ),
        );
        fx.follow_caret();
    }

    /// `now` is this state with the values that the field had when it got the focus.
    pub open spec fn escaped(self, now: ProxyState, protocol: ManualProxyProtocol) -> bool {
        &&& now == (ProxyState {
            focus: None,
            url: now.url,
            no_proxy: now.no_proxy,
            protocol,
            backup: now.backup,
            ..self
        })
        &&& now.url@ == self.backup.0@
        &&& now.no_proxy@ == self.backup.1@
        &&& now.backup.0@.len() == 0
        &&& now.backup.1@.len() == 0
    }

    /// Leaves the focused field and gives it back what it held before. `protocol` is that
    /// of the restored address.
    pub fn cancel_ssh_proxy_field(&mut self, protocol: ManualProxyProtocol, fx: &mut Fx)
        requires
            old(self).wf(),
        ensures
            final(self).wf(),
            old(self).focus is None ==> *final(self) == *old(self) && *final(fx) == *old(fx),
            old(self).focus is Some ==> old(self).escaped(*final(self), protocol) && *final(fx)
                == old(fx).marked(),
    {
        if self.focus.is_none() {
            return;
        }
        self.focus = None;
        self.url = self.backup.0.clone();
        self.no_proxy = self.backup.1.clone();
        self.backup = (String::new(), String::new());
        self.protocol = protocol;
        fx.mark();
    }
}

/// Whatever was typed since a field got the focus, leaving it by escape gives the proxy
/// back its address and its exceptions.
pub proof fn escape_restores_proxy(
    before: ProxyState,
    focused: ProxyState,
    later: ProxyState,
    after: ProxyState,
    i: usize,
    shown: Seq<char>,
    protocol: ManualProxyProtocol,
)
    requires
        before.focused_on(focused, i, shown),
        later.backup == focused.backup,
        later.escaped(after, protocol),
    ensures
        after.url@ == before.url@,
        after.no_proxy@ == before.no_proxy@,
{
}

/// An edit keeps what an escape gives back, and drops the answer of a running test.
pub proof fn edits_keep_the_backup(
    was: ProxyState,
    now: ProxyState,
    i: usize,
    edit: Option<ManualEdit>,
)
    requires
        was.edited(now, i, edit),
    ensures
        now.backup == was.backup,
        now.test_seq != was.test_seq,
        now.test_status is Idle,
{
}

/// An address that was found is chosen by its place, before anything else; else a jump host,
/// then a command, and then an address by hand.
pub proof fn found_address_is_chosen_first(
    url: Seq<char>,
    found: Seq<Seq<char>>,
    is_jump: bool,
    is_command: bool,
)
    requires
        found.len() <= usize::MAX,
    ensures
        ({
            let c = choice_of(url, found, is_jump, is_command);
            &&& c is Detected <==> found.contains(url)
            &&& c matches ProxyChoice::Detected(i) ==> i < found.len() && found[i as int] == url
            &&& c is Jump <==> !found.contains(url) && is_jump
            &&& c is Command <==> !found.contains(url) && !is_jump && is_command
            &&& c is Manual <==> !found.contains(url) && !is_jump && !is_command
        }),
{
    crate::hosts::lemma_first_index(found, url);
}

proof fn lemma_tail_is_cells(s: Seq<char>, n: int)
    requires
        0 <= n <= s.len(),
    ensures
        tail_cols(s, n) + slot_cells(s.take(s.len() - n)) == slot_cells(s),
    decreases n,
{
    if n > 0 {
        lemma_tail_is_cells(s, n - 1);
        assert(s.take(s.len() - n + 1).drop_last() =~= s.take(s.len() - n));
    } else {
        assert(s.take(s.len() as int) =~= s);
    }
}

/// The part of a text that is shown at its end has the columns that the text has without
/// what is hidden, and no longer part would fit.
pub proof fn shown_tail_is_the_longest(s: Seq<char>, n: int, m: int, max_cols: nat)
    requires
        longest_tail(s, n, max_cols),
        0 <= m <= s.len(),
    ensures
        tail_cols(s, n) == slot_cells(s) - slot_cells(s.take(s.len() - n)),
        tail_cols(s, n) <= max_cols,
        tail_cols(s, m) <= max_cols ==> m <= n,
        slot_cells(s) <= max_cols ==> n == s.len(),
{
    lemma_tail_is_cells(s, n);
    lemma_tail_is_cells(s, s.len() as int);
    if m > n {
        lemma_tail_cols_grow(s, n + 1, m);
    }
    assert(s.take(0) =~= Seq::empty());
    assert(slot_cells(s.take(0)) == 0);
    if n < s.len() {
        lemma_tail_cols_grow(s, n + 1, s.len() as int);
    }
}

/// The list to pick from holds what was found, then an address by hand, a jump host and a
/// command, and no more.
pub proof fn picks_follow_what_was_found(s: ProxyState, index: usize)
    ensures
        index < s.found@.len() ==> s.picked(index) == Some(ProxyChoice::Detected(index)),
        s.picked(index) == Some(ProxyChoice::Manual) <==> index == s.found@.len(),
        s.picked(index) == Some(ProxyChoice::Jump) <==> index == s.found@.len() + 1,
        s.picked(index) == Some(ProxyChoice::Command) <==> index == s.found@.len() + 2,
        s.picked(index) is None <==> index >= s.found@.len() + 3,
{
}

/// A test whose settings changed is not answered any more: its number is another one, and
/// nothing is asked for or shown of it.
pub proof fn changed_proxy_is_untested(s: ProxyState)
    ensures
        s.untested().test_seq != s.test_seq,
        s.untested().test_request is None,
        s.untested().test_status is Idle,
        s.untested().url == s.url && s.untested().no_proxy == s.no_proxy && s.untested().mode
            == s.mode && s.untested().choice == s.choice && s.untested().fields == s.fields
            && s.untested().found == s.found && s.untested().focus == s.focus,
{
}

/// Leaving a field trims what was typed: an address stays that address, an empty command is
/// no address, and a command is marked as one.
pub proof fn left_field_is_trimmed(s: ProxyState, now: ProxyState, command: Seq<char>)
    requires
        s.field_left(now, command),
    ensures
        now.focus is None,
        s.focus is None ==> now.url == s.url && now.no_proxy == s.no_proxy,
        s.focus is Some ==> now.no_proxy@ == trimmed(s.no_proxy@),
        s.focus is Some && !(s.choice is Command) ==> now.url@ == trimmed(s.url@),
        s.focus is Some && s.choice is Command && trimmed(command).len() == 0 ==> now.url@.len()
            == 0,
        s.focus is Some && s.choice is Command && trimmed(command).len() > 0 ==> now.url@.skip(8)
            == trimmed(command) && now.url@.take(8) == "command:"@,
        now.mode == s.mode && now.choice == s.choice && now.fields == s.fields && now.found
            == s.found && now.protocol == s.protocol && now.test_seq == s.test_seq,
{
    reveal_strlit("command:");
    let whole = "command:"@ + trimmed(command);
    assert(whole.skip(8) =~= trimmed(command));
    assert(whole.take(8) =~= "command:"@);
}

/// The first field shows the address by hand and nothing else, the second the hosts without a
/// proxy, and the third the command.
pub proof fn fields_show_their_own_text(s: ProxyState, parts: (Seq<char>, Seq<char>))
    ensures
        s.choice is Manual ==> s.field_text(0, parts) == parts.0,
        !(s.choice is Manual) ==> s.field_text(0, parts).len() == 0,
        s.field_text(1, parts) == s.no_proxy@,
        s.field_text(2, parts) == parts.1,
        ProxyState::field_of(0) == 0 && ProxyState::field_of(1) == 1,
        forall|i: usize| i >= 2 ==> #[trigger] ProxyState::field_of(i) == 2,
        proxy_rule(0).max == 256 && proxy_rule(1).max == 256 && proxy_rule(2).max == 256,
        !proxy_rule(0).spaces && proxy_rule(1).spaces && proxy_rule(2).spaces,
{
}

/// Typing reaches the setting of its own field and no other; the test of the old setting is
/// dropped.
pub proof fn edit_reaches_its_own_setting(
    s: ProxyState,
    now: ProxyState,
    i: usize,
    j: int,
    edit: Option<ManualEdit>,
)
    requires
        s.wf(),
        s.edited(now, i, edit),
        i < 3,
    ensures
        i != 1 ==> now.no_proxy == s.no_proxy,
        i == 1 ==> now.no_proxy@ == now.fields@[1].text@,
        i < 2 ==> now.url == s.url,
        i == 2 ==> now.url@ == "command:"@ + now.fields@[2].text@,
        i == 0 <==> edit is Some,
        edit matches Some(e) ==> e.address@ == now.fields@[0].text@ && e.protocol == s.protocol,
        0 <= j < 3 && j != i ==> now.fields@[j] == s.fields@[j],
        now.focus == s.focus && now.mode == s.mode && now.choice == s.choice,
        now.test_request is None,
{
}

/// Proxies are looked for once: while none is known and no search runs. The proxy of the
/// system is asked for each time.
pub proof fn proxies_are_looked_for_once(s: ProxyState, fx: Fx)
    ensures
        s.searched().searched() == s.searched(),
        s.found@.len() > 0 || s.scanning ==> s.searched() == s,
        s.found@.len() == 0 && !s.scanning ==> s.searched().scan_request && s.searched().scanning,
        s.searched_fx(fx).requests.probe_system_proxy,
        forall|found: Seq<String>|
            #[trigger] s.adopts(found) <==> s.mode is Custom && found.len() > 0 && trimmed(
                s.url@,
            ).len() == 0,
{
}

/// A mode that is chosen is the mode, and the test of the one before is dropped; the list
/// closes. The proxy of the system is asked for where it is used.
pub proof fn chosen_mode_is_used(
    s: &mut ProxyState,
    mode: Option<ProxyMode>,
    page: &mut PageState,
    fx: &mut Fx,
)
    requires
        call_ensures(ProxyState::set_ssh_proxy_mode, (s, mode, page, fx), ()),
    ensures
        mode matches Some(m) ==> final(s).mode == m,
        mode is None ==> *final(s) == *old(s),
        final(s).mode != old(s).mode ==> final(s).test_seq != old(s).test_seq
            && final(s).test_status is Idle && final(fx).persist,
        final(s).mode == old(s).mode ==> *final(s) == *old(s),
        final(s).mode != old(s).mode && final(s).mode is System
            ==> final(fx).requests.probe_system_proxy,
        final(page).dropdown is None,
        final(s).url == old(s).url && final(s).choice == old(s).choice && final(s).no_proxy
            == old(s).no_proxy,
{
}

/// Only the answer to the running test counts: it ends the test, and another one changes
/// nothing. A test that starts has a number of its own.
pub proof fn only_the_running_test_is_answered(
    s: &mut ProxyState,
    request_id: u64,
    outcome: u32,
    elapsed_ms: u64,
    fx: &mut Fx,
    t: &mut ProxyState,
    command: &str,
    fx2: &mut Fx,
)
    requires
        call_ensures(ProxyState::proxy_test_done, (s, request_id, outcome, elapsed_ms, fx), ()),
        call_ensures(ProxyState::request_proxy_test, (t, command, fx2), ()),
    ensures
        request_id == old(s).test_seq && old(s).test_status is Running ==> final(s).test_status == (
        ProxyTestStatus::Complete { outcome, elapsed_ms }) && final(fx).redraw,
        !(request_id == old(s).test_seq && old(s).test_status is Running) ==> *final(s) == *old(s)
            && *final(fx) == *old(fx),
        final(s).url == old(s).url && final(s).mode == old(s).mode,
        !(old(t).test_status is Running) ==> final(t).test_status is Running && final(t).test_seq
            != old(t).test_seq && final(t).test_request == Some(final(t).test_seq),
        old(t).test_status is Running ==> final(t).test_seq == old(t).test_seq
            && final(t).test_status is Running,
        final(t).focus is None,
{
}

/// A request is taken once: the second time there is none.
pub proof fn requests_are_taken_once(
    s: &mut ProxyState,
    r: Option<u64>,
    s2: &mut ProxyState,
    r2: Option<u64>,
    t: &mut ProxyState,
    q: bool,
    t2: &mut ProxyState,
    q2: bool,
)
    requires
        call_ensures(ProxyState::take_proxy_test_request, (s,), r),
        call_ensures(ProxyState::take_proxy_test_request, (s2,), r2),
        *s2 == *final(s),
        call_ensures(ProxyState::take_local_proxy_scan_request, (t,), q),
        call_ensures(ProxyState::take_local_proxy_scan_request, (t2,), q2),
        *t2 == *final(t),
    ensures
        r == old(s).test_request && r2 is None,
        q == old(t).scan_request && !q2,
        final(s).test_seq == old(s).test_seq && final(s).test_status == old(s).test_status,
        final(t).scanning == old(t).scanning && final(t).found == old(t).found,
{
}

/// A picked row is the choice: an address that was found is used, and any other choice starts
/// without one. The same choice again keeps what is set.
pub proof fn picked_row_is_the_choice(s: &mut ProxyState, index: usize, fx: &mut Fx)
    requires
        call_ensures(ProxyState::set_ssh_proxy_link_pick, (s, index, fx), ()),
    ensures
        ({
            let n = old(s).found@.len();
            &&& index < n ==> final(s).choice == ProxyChoice::Detected(index)
            &&& index == n ==> final(s).choice is Manual
            &&& index == n + 1 ==> final(s).choice is Jump
            &&& index == n + 2 ==> final(s).choice is Command
            &&& index > n + 2 ==> *final(s) == *old(s)
            &&& final(s).choice != old(s).choice && index < n ==> final(s).url@
                == old(s).found@[index as int]@
            &&& final(s).choice != old(s).choice && index >= n ==> final(s).url@.len() == 0
            &&& final(s).choice == old(s).choice ==> *final(s) == *old(s)
            &&& final(s).choice != old(s).choice ==> final(fx).persist && final(s).focus is None
        }),
        final(s).found == old(s).found && final(s).mode == old(s).mode && final(s).no_proxy
            == old(s).no_proxy,
{
}

/// A search ends with what it found. The first address is taken where a custom proxy has none
/// yet; an address that is set stays.
pub proof fn found_proxies_are_listed(
    s: &mut ProxyState,
    proxies: Vec<String>,
    is_jump: bool,
    is_command: bool,
    fx: &mut Fx,
)
    requires
        call_ensures(
            ProxyState::local_proxy_scan_done,
            (s, proxies, is_jump, is_command, fx),
            (),
        ),
    ensures
        !final(s).scanning && final(s).found == proxies,
        old(s).mode is Custom && trimmed(old(s).url@).len() == 0 && proxies@.len() > 0
            ==> final(s).url@ == proxies@[0]@ && final(s).choice == ProxyChoice::Detected(0)
            && final(fx).persist,
        !(old(s).mode is Custom) || trimmed(old(s).url@).len() > 0 || proxies@.len() == 0
            ==> final(s).url@ == old(s).url@ && final(fx).persist == old(fx).persist,
        final(s).mode == old(s).mode && final(s).no_proxy == old(s).no_proxy,
{
}

/// A jump host is an address of its own, and is written down where it is another one.
pub proof fn jump_host_is_the_address(
    s: &mut ProxyState,
    destination: Option<&str>,
    page: &mut PageState,
    fx: &mut Fx,
)
    requires
        call_ensures(ProxyState::set_ssh_proxy_jump_host, (s, destination, page, fx), ()),
    ensures
        destination matches Some(d) ==> final(s).url@ == "jump:"@ + d@,
        destination is None ==> *final(s) == *old(s),
        final(s).url@ != old(s).url@ ==> final(fx).persist,
        final(page).dropdown is None,
        final(s).choice == old(s).choice && final(s).mode == old(s).mode,
{
}

/// A protocol that is chosen is used with the address it gives, by hand; the test of the
/// other one is dropped.
pub proof fn chosen_protocol_is_used(
    s: &mut ProxyState,
    protocol: Option<ManualProxyProtocol>,
    url: &str,
    command: &str,
    page: &mut PageState,
    fx: &mut Fx,
)
    requires
        call_ensures(ProxyState::set_ssh_proxy_protocol, (s, protocol, url, command, page, fx), ()),
    ensures
        protocol is None ==> *final(s) == *old(s) && *final(page) == *old(page),
        protocol matches Some(p) ==> final(s).protocol == p && final(s).url@ == url@
            && final(s).choice is Manual && final(s).focus is None && final(s).test_seq
            != old(s).test_seq && final(page).dropdown is None && final(fx).persist,
        final(s).mode == old(s).mode && final(s).found == old(s).found,
{
}

/// The part of a field that is hidden in front is what does not fit, and never more than what
/// stands before the caret; a field without the keyboard hides nothing.
pub proof fn hidden_part_is_what_does_not_fit(
    text: Vec<char>,
    max_cols: usize,
    caret: usize,
    hidden: usize,
)
    requires
        call_ensures(proxy_hidden_chars, (&text, max_cols, caret), hidden),
        caret <= text@.len(),
    ensures
        hidden <= caret,
        slot_cells(text@) <= max_cols ==> hidden == 0,
        hidden < caret ==> tail_cols(text@, text@.len() - hidden) <= max_cols,
{
    let n = choose|n: int| #[trigger] longest_tail(text@, n, max_cols as nat);
    shown_tail_is_the_longest(text@, n, n, max_cols as nat);
}

/// Typing goes into the field with the keyboard and no other; without one it goes nowhere.
pub proof fn typing_reaches_the_focused_field(
    s: &mut ProxyState,
    ch: char,
    fx: &mut Fx,
    edit: Option<ManualEdit>,
    j: int,
)
    requires
        call_ensures(ProxyState::ssh_proxy_field_push, (s, ch, fx), edit),
        old(s).wf(),
        0 <= j < 3,
    ensures
        old(s).focus is None ==> *final(s) == *old(s) && edit is None,
        old(s).focus matches Some(i) ==> {
            let f = old(s).fields@[i as int];
            let now = final(s).fields@[i as int];
            let fits = f.text@.len() - (f.selection().1 - f.selection().0) + 1 <= 256;
            &&& j != i ==> final(s).fields@[j] == old(s).fields@[j]
            &&& proxy_rule(i).takes(ch) && fits ==> now.text@ == f.text@.take(f.selection().0)
                + seq![ch] + f.text@.skip(f.selection().1) && now.caret == f.selection().0 + 1
            &&& !proxy_rule(i).takes(ch) || !fits ==> now.text == f.text && edit is None
        },
        final(s).mode == old(s).mode && final(s).choice == old(s).choice && final(s).focus
            == old(s).focus,
{
    if old(s).focus is Some {
        let i = old(s).focus->0 as int;
        let f = old(s).fields@[i];
        let after = spliced(f.text@, f.selection().0, f.selection().1, seq![ch]);
        assert(f.wf());
        assert(after =~= f.text@.take(f.selection().0) + seq![ch] + f.text@.skip(f.selection().1));
    }
}

/// Moving and selecting touch no text.
pub proof fn moving_keeps_the_fields(
    s: &mut ProxyState,
    forward: bool,
    extend: bool,
    fx: &mut Fx,
    t: &mut ProxyState,
    fx2: &mut Fx,
    j: int,
)
    requires
        call_ensures(ProxyState::ssh_proxy_field_move, (s, forward, extend, fx), ()),
        call_ensures(ProxyState::ssh_proxy_field_select_all, (t, fx2), ()),
        old(s).wf(),
        old(t).wf(),
        0 <= j < 3,
    ensures
        final(s).fields@[j].text == old(s).fields@[j].text,
        final(t).fields@[j].text == old(t).fields@[j].text,
        final(s).url == old(s).url && final(s).no_proxy == old(s).no_proxy && final(s).test_seq
            == old(s).test_seq,
        final(t).url == old(t).url && final(t).no_proxy == old(t).no_proxy,
        old(t).focus == Some(j as usize) ==> final(t).fields@[j].caret
            == final(t).fields@[j].text@.len() && final(t).fields@[j].anchor == Some(0usize),
{
}

/// A field that gets the keyboard shows its own setting with the caret at its end, and what
/// it was is kept for escape.
pub proof fn focused_field_shows_its_setting(
    s: &mut ProxyState,
    index: usize,
    parts: (&str, &str),
    command: &str,
    fx: &mut Fx,
)
    requires
        call_ensures(ProxyState::focus_ssh_proxy_field, (s, index, parts, command, fx), ()),
        old(s).wf(),
        old(s).focus is None,
    ensures
        ({
            let i = if index < 2 {
                index as int
            } else {
                2
            };
            let f = final(s).fields@[i];
            &&& final(s).focus == Some(i as usize)
            &&& f.caret == f.text@.len() && f.anchor is None
            &&& i == 1 ==> f.text@ == old(s).no_proxy@
            &&& i == 2 ==> f.text@ == parts.1@
            &&& i == 0 && old(s).choice is Manual ==> f.text@ == parts.0@
            &&& final(s).backup.0@ == old(s).url@ && final(s).backup.1@ == old(s).no_proxy@
            &&& final(s).url == old(s).url && final(s).no_proxy == old(s).no_proxy
        }),
{
    let i = if index < 2 {
        index
    } else {
        2
    };
    let mid = choose|mid: ProxyState|
        old(s).field_left(mid, command@) && #[trigger] mid.focused_on(
            *final(s),
            i,
            mid.field_text(i, (parts.0@, parts.1@)),
        );
    assert(mid == *old(s));
}

/// A search starts once; the proxy of the system is shown with where it comes from.
pub proof fn search_for_proxies_starts_once(
    s: &mut ProxyState,
    fx: &mut Fx,
    t: &mut ProxyState,
    found: Option<(String, SystemProxySource)>,
    u: &mut ProxyState,
    protocol: ManualProxyProtocol,
    fx2: &mut Fx,
)
    requires
        call_ensures(ProxyState::request_local_proxy_scan, (s, fx), ()),
        call_ensures(ProxyState::refresh_system_proxy_probe, (t, found), ()),
        call_ensures(ProxyState::cancel_ssh_proxy_field, (u, protocol, fx2), ()),
    ensures
        final(s).scanning,
        old(s).scanning ==> *final(s) == *old(s),
        !old(s).scanning ==> final(s).scan_request && final(s).found == old(s).found,
        found is None ==> final(t).system is None,
        found matches Some((url, source)) ==> final(t).system == Some(
            (url, source is Registry),
        ),
        final(t).url == old(t).url && final(t).mode == old(t).mode,
        final(u).focus is None,
        old(u).focus is Some ==> final(u).url@ == old(u).backup.0@ && final(u).no_proxy@
            == old(u).backup.1@ && final(u).protocol == protocol,
        old(u).focus is None ==> *final(u) == *old(u),
{
}

} // verus!
