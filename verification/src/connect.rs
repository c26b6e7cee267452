//! Cards over panes that connect to a host.
use std::collections::HashMap;
use vstd::prelude::*;

verus! {

broadcast use vstd::std_specs::hash::group_hash_axioms;

/// How far a connection is; stages between the first and the last are codes.
#[derive(Clone, Copy, Debug, PartialEq, Eq, Structural)]
pub enum SshStage {
    Resolve,
    Ready,
    Other(u32),
}

/// What the pointer is over on a card; zero is nothing.
#[derive(Debug)]
pub struct SshConnectState {
    pub destination: String,
    pub stage: SshStage,
    pub hover: u32,
    pub logs_open: bool,
}

/// The cards of a window, by the pane that each covers, and the pane that has the focus.
#[derive(Debug)]
pub struct ConnectCards {
    pub cards: HashMap<u64, SshConnectState>,
    pub focused_pane: u64,
}

impl ConnectCards {
    /// The card of a pane.
    pub open spec fn card(self, pane: u64) -> Option<SshConnectState> {
        if self.cards@.contains_key(pane) {
            Some(self.cards@[pane])
        } else {
            None
        }
    }

    /// The cards of `now` are these but for that of one pane, which is `card`.
    pub open spec fn with_card(
        self,
        now: ConnectCards,
        pane: u64,
        card: Option<SshConnectState>,
    ) -> bool {
        &&& now.focused_pane == self.focused_pane
        &&& now.cards@ == match card {
            Some(c) => self.cards@.insert(pane, c),
            None => self.cards@.remove(pane),
        }
    }

    /// The cards of `now` are these.
    pub open spec fn same_cards(self, now: ConnectCards) -> bool {
        now.focused_pane == self.focused_pane && now.cards@ == self.cards@
    }

    /// A window without cards.
    pub fn new(focused_pane: u64) -> (c: ConnectCards)
        ensures
            c.focused_pane == focused_pane,
            c.cards@ == Map::<u64, SshConnectState>::empty(),
    {
        ConnectCards { cards: HashMap::new(), focused_pane }
    }

    pub fn set_focused_pane(&mut self, pane: u64)
        ensures
            *final(self) == (ConnectCards { focused_pane: pane, ..*old(self) }),
    {
        self.focused_pane = pane;
    }

    /// The card of a pane once its connection reached a stage.
    pub open spec fn staged(
        card: Option<SshConnectState>,
        destination: String,
        stage: SshStage,
    ) -> Option<SshConnectState> {
        match (stage, card) {
            (SshStage::Ready, _) => None,
            (_, Some(was)) => Some(SshConnectState { stage, ..was }),
            (SshStage::Resolve, None) => Some(
                SshConnectState { destination, stage, hover: 0, logs_open: false },
            ),
            (SshStage::Other(_), None) => None,
        }
    }

    /// Takes over how far a pane's connection is. A finished one needs no card, and only
    /// the first stage opens one: a session that breaks later never gets a card again.
    pub fn ssh_connect_stage(&mut self, pane: u64, destination: String, stage: SshStage)
        ensures
            old(self).with_card(
                *final(self),
                pane,
                ConnectCards::staged(old(self).card(pane), destination, stage),
            ),
    {
        let was: Option<SshConnectState> = self.cards.remove(&pane);
        if stage == SshStage::Ready {
            return;
        }
        match was {
            Some(mut card) => {
                card.stage = stage;
                self.cards.insert(pane, card);
            },
            None => {
                if stage == SshStage::Resolve {
                    self.cards.insert(
                        pane,
                        SshConnectState { destination, stage, hover: 0, logs_open: false },
                    );
                }
            },
        }
        proof {
            let card = ConnectCards::staged(old(self).card(pane), destination, stage);
            if let Some(c) = card {
                assert(self.cards@ =~= old(self).cards@.insert(pane, c));
            }
        }
    }

    /// Drops the card of a pane that is closed.
    pub fn forget_ssh_connect(&mut self, pane: u64)
        ensures
            old(self).with_card(*final(self), pane, None),
    {
        self.cards.remove(&pane);
    }

    /// Whether a card covers the focused pane; `visible` tells that the card of that pane
    /// is shown yet.
    pub fn ssh_connect_active(&self, visible: bool) -> (r: bool)
        ensures
            r == (self.card(self.focused_pane) is Some && visible),
    {
        self.cards.contains_key(&self.focused_pane) && visible
    }

    /// Whether the card of the focused pane is drawn, and whether a further frame is
    /// needed. Before it is shown frames have to go on as well; a failed one stands still.
    pub fn draw_ssh_connect(&self, visible: bool, failed: bool) -> (r: (bool, bool))
        ensures
            r.0 == (self.card(self.focused_pane) is Some && visible),
            r.1 == (self.card(self.focused_pane) is Some && !failed),
    {
        let has: bool = self.cards.contains_key(&self.focused_pane);
        (has && visible, has && !failed)
    }

    /// Remembers what the pointer is over on the card of the focused pane.
    pub fn ssh_connect_set_hover(&mut self, hit: u32) -> (r: bool)
        ensures
            match old(self).card(old(self).focused_pane) {
                Some(was) => {
                    &&& r == (was.hover != hit)
                    &&& old(self).with_card(
                        *final(self),
                        old(self).focused_pane,
                        Some(SshConnectState { hover: hit, ..was }),
                    )
                },
                None => !r && old(self).same_cards(*final(self)),
            },
    {
        let pane: u64 = self.focused_pane;
        match self.cards.remove(&pane) {
            Some(mut card) => {
                let r: bool = card.hover != hit;
                card.hover = hit;
                let ghost now = card;
                self.cards.insert(pane, card);
                proof {
                    assert(self.cards@ =~= old(self).cards@.insert(pane, now));
                }
                r
            },
            None => {
                proof {
                    assert(self.cards@ =~= old(self).cards@);
                }
                false
            },
        }
    }

    /// Folds the log of the card of the focused pane in or out.
    pub fn ssh_connect_toggle_logs(&mut self)
        ensures
            match old(self).card(old(self).focused_pane) {
                Some(was) => old(self).with_card(
                    *final(self),
                    old(self).focused_pane,
                    Some(SshConnectState { logs_open: !was.logs_open, ..was }),
                ),
                None => old(self).same_cards(*final(self)),
            },
    {
        let pane: u64 = self.focused_pane;
        match self.cards.remove(&pane) {
            Some(mut card) => {
                card.logs_open = !card.logs_open;
                let ghost now = card;
                self.cards.insert(pane, card);
                proof {
                    assert(self.cards@ =~= old(self).cards@.insert(pane, now));
                }
            },
            None => {
                proof {
                    assert(self.cards@ =~= old(self).cards@);
                }
            },
        }
    }

    /// The host that the focused pane connects to.
    pub fn ssh_connect_destination(&self) -> (r: Option<String>)
        ensures
            r == match self.card(self.focused_pane) {
                Some(c) => Some(c.destination),
                None => None,
            },
    {
        match self.cards.get(&self.focused_pane) {
            Some(card) => Some(card.destination.clone()),
            None => None,
        }
    }
}

/// A session that was ready and breaks later gets no card: only a new connection does.
pub proof fn broken_session_gets_no_card(
    card: Option<SshConnectState>,
    a: String,
    b: String,
    code: u32,
)
    ensures
        ConnectCards::staged(
            ConnectCards::staged(card, a, SshStage::Ready),
            b,
            SshStage::Other(code),
        ) is None,
        ConnectCards::staged(
            ConnectCards::staged(card, a, SshStage::Ready),
            b,
            SshStage::Resolve,
        ) is Some,
{
}

/// A card appears when its host is looked up, follows every later stage with what it showed
/// before, and goes once the session is ready.
pub proof fn card_follows_the_session(
    card: Option<SshConnectState>,
    destination: String,
    stage: SshStage,
)
    ensures
        ({
            let now = ConnectCards::staged(card, destination, stage);
            &&& stage is Ready ==> now is None
            &&& card is None ==> (now is Some <==> stage is Resolve)
            &&& card is Some && !(stage is Ready) ==> now is Some && now->0.destination
                == card->0.destination && now->0.hover == card->0.hover && now->0.logs_open
                == card->0.logs_open
            &&& now matches Some(c) ==> c.stage == stage
            &&& card is None && now is Some ==> now->0.destination == destination
                && !now->0.logs_open && now->0.hover == 0
        }),
{
}

/// A card that was set is the card of its pane, and other panes keep theirs.
pub proof fn cards_belong_to_their_panes(
    s: ConnectCards,
    now: ConnectCards,
    pane: u64,
    other: u64,
    card: Option<SshConnectState>,
)
    requires
        s.with_card(now, pane, card),
    ensures
        now.card(pane) == card,
        other != pane ==> now.card(other) == s.card(other),
        now.focused_pane == s.focused_pane,
{
}

/// A stage reaches the card of its own pane and no other.
pub proof fn stage_reaches_its_pane(
    s: &mut ConnectCards,
    pane: u64,
    other: u64,
    destination: String,
    stage: SshStage,
)
    requires
        call_ensures(ConnectCards::ssh_connect_stage, (s, pane, destination, stage), ()),
    ensures
        other != pane ==> final(s).card(other) == old(s).card(other),
        stage is Ready ==> final(s).card(pane) is None,
        final(s).card(pane) matches Some(c) ==> c.stage == stage,
        old(s).card(pane) is None ==> (final(s).card(pane) is Some <==> stage is Resolve),
        old(s).card(pane) is Some && !(stage is Ready) ==> final(s).card(pane) is Some && final(s).card(pane)->0.destination == old(s).card(pane)->0.destination,
        final(s).focused_pane == old(s).focused_pane,
{
    cards_belong_to_their_panes(
        *old(s),
        *final(s),
        pane,
        other,
        ConnectCards::staged(old(s).card(pane), destination, stage),
    );
    card_follows_the_session(old(s).card(pane), destination, stage);
}

/// A card that is forgotten is gone and the others stay; the one of the focused pane is
/// shown while the grid is, and its animation goes on until it failed.
pub proof fn focused_card_is_shown(
    s: &mut ConnectCards,
    pane: u64,
    other: u64,
    t: ConnectCards,
    visible: bool,
    failed: bool,
    active: bool,
    r: (bool, bool),
    d: Option<String>,
)
    requires
        call_ensures(ConnectCards::forget_ssh_connect, (s, pane), ()),
        call_ensures(ConnectCards::ssh_connect_active, (&t, visible), active),
        call_ensures(ConnectCards::draw_ssh_connect, (&t, visible, failed), r),
        call_ensures(ConnectCards::ssh_connect_destination, (&t,), d),
    ensures
        final(s).card(pane) is None,
        other != pane ==> final(s).card(other) == old(s).card(other),
        active <==> visible && t.card(t.focused_pane) is Some,
        r.0 == active,
        r.1 <==> !failed && t.card(t.focused_pane) is Some,
        d is Some <==> t.card(t.focused_pane) is Some,
        d matches Some(x) ==> x == t.card(t.focused_pane)->0.destination,
{
    cards_belong_to_their_panes(*old(s), *final(s), pane, other, None);
}

/// Hovering and the log belong to the card of the focused pane; the log opens and closes in
/// turn.
pub proof fn focused_card_takes_the_pointer(
    s: &mut ConnectCards,
    hit: u32,
    r: bool,
    t: &mut ConnectCards,
    other: u64,
)
    requires
        call_ensures(ConnectCards::ssh_connect_set_hover, (s, hit), r),
        call_ensures(ConnectCards::ssh_connect_toggle_logs, (t,), ()),
    ensures
        old(s).card(old(s).focused_pane) matches Some(c) ==> (r <==> c.hover != hit) && final(s).card(old(s).focused_pane) == Some(SshConnectState { hover: hit, ..c }),
        old(s).card(old(s).focused_pane) is None ==> !r,
        old(t).card(old(t).focused_pane) matches Some(c) ==> final(t).card(old(t).focused_pane)
            == Some(SshConnectState { logs_open: !c.logs_open, ..c }),
        other != old(s).focused_pane ==> final(s).card(other) == old(s).card(other),
        other != old(t).focused_pane ==> final(t).card(other) == old(t).card(other),
{
}

} // verus!
