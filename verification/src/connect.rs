//! Connecting through discovery: find a peer, then try its addresses in turn.

use vstd::pervasive::unreached;
use vstd::prelude::*;
use vstd::string::*;

use crate::message::PeerId;
use crate::multicast_discovery::{ConnectorView, MulticastDiscoveryConnector};
use crate::peers::{is_latest, DiscoveredPeer, PeerView};
use crate::text::{decimal, decimal_text};

verus! {

/// How far an attempt to connect has come.
#[derive(Debug)]
pub enum ConnectState {
    /// Discovery is being started.
    Starting,
    /// The first peer is being waited for.
    Waiting,
    /// The peer's address at place `next` is being tried.
    Trying { peer: DiscoveredPeer, next: usize },
    /// There is nothing left to do.
    Finished,
}

/// How waiting for the first peer ended.
#[derive(Debug)]
pub enum WaitResult {
    Peer(DiscoveredPeer),
    /// No peer can come any more.
    Closed,
    /// No peer came in time. The text says so.
    TimedOut(String),
}

/// What happened to an attempt to connect.
#[derive(Debug)]
pub enum ConnectEvent {
    /// Discovery was started, or could not be, for the reason in the text.
    Started(Result<(), String>),
    Waited(WaitResult),
    /// The address was tried, and gave a connection or not.
    Tried(bool),
}

/// What to do next to connect.
#[derive(Debug)]
pub enum ConnectAction {
    StartDiscovery,
    /// Wait for the first peer.
    AwaitPeer,
    /// Try this address.
    TryListener(String),
    /// Use the connection.
    Connected,
    /// Give up, for the reason in the text.
    Fail(String),
}

/// The mathematical value of a [`ConnectState`].
pub enum StateView {
    Starting,
    Waiting,
    Trying { peer: PeerView, next: nat },
    Finished,
}

/// The mathematical value of a [`WaitResult`].
pub enum WaitView {
    Peer(PeerView),
    Closed,
    TimedOut(Seq<char>),
}

/// The mathematical value of a [`ConnectEvent`].
pub enum EventView {
    Started(Result<(), Seq<char>>),
    Waited(WaitView),
    Tried(bool),
}

/// The mathematical value of a [`ConnectAction`].
pub enum ActionView {
    StartDiscovery,
    AwaitPeer,
    TryListener(Seq<char>),
    Connected,
    Fail(Seq<char>),
}

impl View for ConnectState {
    type V = StateView;

    open spec fn view(&self) -> StateView {
        match *self {
            ConnectState::Starting => StateView::Starting,
            ConnectState::Waiting => StateView::Waiting,
            ConnectState::Trying { peer, next } => StateView::Trying {
                peer: peer@,
                next: next as nat,
            },
            ConnectState::Finished => StateView::Finished,
        }
    }
}

impl View for WaitResult {
    type V = WaitView;

    open spec fn view(&self) -> WaitView {
        match *self {
            WaitResult::Peer(p) => WaitView::Peer(p@),
            WaitResult::Closed => WaitView::Closed,
            WaitResult::TimedOut(text) => WaitView::TimedOut(text@),
        }
    }
}

impl View for ConnectEvent {
    type V = EventView;

    open spec fn view(&self) -> EventView {
        match *self {
            ConnectEvent::Started(Ok(_)) => EventView::Started(Ok(())),
            ConnectEvent::Started(Err(text)) => EventView::Started(Err(text@)),
            ConnectEvent::Waited(w) => EventView::Waited(w@),
            ConnectEvent::Tried(ok) => EventView::Tried(ok),
        }
    }
}

impl View for ConnectAction {
    type V = ActionView;

    open spec fn view(&self) -> ActionView {
        match *self {
            ConnectAction::StartDiscovery => ActionView::StartDiscovery,
            ConnectAction::AwaitPeer => ActionView::AwaitPeer,
            ConnectAction::TryListener(text) => ActionView::TryListener(text@),
            ConnectAction::Connected => ActionView::Connected,
            ConnectAction::Fail(text) => ActionView::Fail(text@),
        }
    }
}

/// What is said where none of a peer's addresses gave a connection.
pub open spec fn no_listener_text(id: PeerId) -> Seq<char> {
    "Failed to connect to any listeners of peer "@ + decimal(id as nat)
}

/// Trying a peer's addresses from place `next` on.
pub open spec fn trying(peer: PeerView, next: nat) -> (StateView, ActionView) {
    if next < peer.listeners.len() {
        (
            StateView::Trying { peer, next },
            ActionView::TryListener(peer.listeners[next as int].text),
        )
    } else {
        (StateView::Finished, ActionView::Fail(no_listener_text(peer.peer_id)))
    }
}

/// Whether an event is one that the state waits for.
pub open spec fn expects(state: StateView, event: EventView) -> bool {
    match state {
        StateView::Starting => event is Started,
        StateView::Waiting => event is Waited,
        StateView::Trying { .. } => event is Tried,
        StateView::Finished => false,
    }
}

/// What an event leads to.
pub open spec fn connect_next(state: StateView, event: EventView) -> (StateView, ActionView)
    recommends
        expects(state, event),
{
    match (state, event) {
        (StateView::Starting, EventView::Started(Ok(_))) => (
            StateView::Waiting,
            ActionView::AwaitPeer,
        ),
        (StateView::Starting, EventView::Started(Err(text))) => (
            StateView::Finished,
            ActionView::Fail(text),
        ),
        (StateView::Waiting, EventView::Waited(WaitView::Peer(peer))) => trying(peer, 0),
        (StateView::Waiting, EventView::Waited(WaitView::Closed)) => (
            StateView::Finished,
            ActionView::Fail("Discovery channel closed"@),
        ),
        (StateView::Waiting, EventView::Waited(WaitView::TimedOut(text))) => (
            StateView::Finished,
            ActionView::Fail(text),
        ),
        (StateView::Trying { peer, next }, EventView::Tried(ok)) => if ok {
            (StateView::Finished, ActionView::Connected)
        } else {
            trying(peer, next + 1)
        },
        _ => arbitrary(),
    }
}

/// What an attempt may begin with: starting discovery where it does not run, and
/// otherwise the addresses of a peer that no other was heard of after.
pub open spec fn may_begin(node: ConnectorView, begun: (StateView, ActionView)) -> bool {
    if !node.session.socket {
        begun == (StateView::Starting, ActionView::StartDiscovery)
    } else if node.peers == Map::<PeerId, PeerView>::empty() {
        begun == (StateView::Finished, ActionView::Fail("No peers discovered"@))
    } else {
        exists|p: PeerView| is_latest(p, node.peers) && begun == #[trigger] trying(p, 0)
    }
}

/// Trying a peer's addresses after the first `k` gave no connection.
pub open spec fn after_failures(peer: PeerView, k: nat) -> (StateView, ActionView)
    decreases k,
{
    if k == 0 {
        trying(peer, 0)
    } else {
        connect_next(after_failures(peer, (k - 1) as nat).0, EventView::Tried(false))
    }
}

/// Law: a peer's addresses are tried in the order it gave them, each once.
/// Where one gives a connection, that connection is used and no other address is
/// tried. The attempt is given up only when all of them failed, and then the
/// peer is named.
pub proof fn law_listeners_tried_in_order(peer: PeerView, k: nat)
    requires
        k <= peer.listeners.len(),
    ensures
        after_failures(peer, k) == trying(peer, k),
        k < peer.listeners.len() ==> after_failures(peer, k).1 == ActionView::TryListener(
            peer.listeners[k as int].text,
        ),
        k < peer.listeners.len() ==> connect_next(
            after_failures(peer, k).0,
            EventView::Tried(true),
        ) == (StateView::Finished, ActionView::Connected),
        k == peer.listeners.len() ==> after_failures(peer, k) == (
            StateView::Finished,
            ActionView::Fail(no_listener_text(peer.peer_id)),
        ),
    decreases k,
{
    if k > 0 {
        law_listeners_tried_in_order(peer, (k - 1) as nat);
    }
}

/// Law: a discovery that runs and knows a peer has an address to try: an attempt
/// begins with the first address of a peer that no other was heard of after.
pub proof fn law_known_peer_is_tried(node: ConnectorView, begun: (StateView, ActionView), k: PeerId)
    requires
        node.wf(),
        node.session.socket,
        node.peers.contains_key(k),
        may_begin(node, begun),
    ensures
        begun.0 matches StateView::Trying { peer, next } && {
            &&& is_latest(peer, node.peers)
            &&& next == 0
            &&& begun.1 == ActionView::TryListener(peer.listeners[0].text)
        },
{
    assert(node.peers.dom().contains(k));
    let p = choose|p: PeerView| is_latest(p, node.peers) && begun == #[trigger] trying(p, 0);
    assert(node.peers.contains_key(p.peer_id));
}

/// Begins to try a peer's addresses at place `next`.
fn try_from(peer: DiscoveredPeer, next: usize) -> (r: (ConnectState, ConnectAction))
    ensures
        (r.0@, r.1@) == trying(peer@, next as nat),
{
    if next < peer.listeners.len() {
        let text: String = peer.listeners[next].text.clone();
        (ConnectState::Trying { peer, next }, ConnectAction::TryListener(text))
    } else {
        let mut text: String = "Failed to connect to any listeners of peer ".to_owned();
        let id = decimal_text(peer.peer_id);
        text.append(id.as_str());
        (ConnectState::Finished, ConnectAction::Fail(text))
    }
}

impl ConnectState {
    /// The peer that is being tried has an address at the place that is tried.
    pub open spec fn wf(&self) -> bool {
        self matches ConnectState::Trying { peer, next } ==> next < peer.listeners.len()
    }

    /// Whether an event is one that the state waits for.
    pub fn awaits(&self, event: &ConnectEvent) -> (r: bool)
        ensures
            r == expects(self@, event@),
    {
        match (self, event) {
            (ConnectState::Starting, ConnectEvent::Started(_)) => true,
            (ConnectState::Waiting, ConnectEvent::Waited(_)) => true,
            (ConnectState::Trying { .. }, ConnectEvent::Tried(_)) => true,
            _ => false,
        }
    }

    /// Decides what an event leads to.
    pub fn advance(self, event: ConnectEvent) -> (r: (ConnectState, ConnectAction))
        requires
            self.wf(),
            expects(self@, event@),
        ensures
            r.0.wf(),
            (r.0@, r.1@) == connect_next(self@, event@),
    {
        match (self, event) {
            (ConnectState::Starting, ConnectEvent::Started(Ok(_))) => (
                ConnectState::Waiting,
                ConnectAction::AwaitPeer,
            ),
            (ConnectState::Starting, ConnectEvent::Started(Err(text))) => (
                ConnectState::Finished,
                ConnectAction::Fail(text),
            ),
            (ConnectState::Waiting, ConnectEvent::Waited(WaitResult::Peer(peer))) => try_from(
                peer,
                0,
            ),
            (ConnectState::Waiting, ConnectEvent::Waited(WaitResult::Closed)) => (
                ConnectState::Finished,
                ConnectAction::Fail("Discovery channel closed".to_owned()),
            ),
            (ConnectState::Waiting, ConnectEvent::Waited(WaitResult::TimedOut(text))) => (
                ConnectState::Finished,
                ConnectAction::Fail(text),
            ),
            (ConnectState::Trying { peer, next }, ConnectEvent::Tried(ok)) => {
                if ok {
                    (ConnectState::Finished, ConnectAction::Connected)
                } else {
                    try_from(peer, next + 1)
                }
            },
            _ => unreached(),
        }
    }
}

impl MulticastDiscoveryConnector {
    /// Begins an attempt to connect.
    pub fn connect(&self) -> (r: (ConnectState, ConnectAction))
        requires
            self.wf(),
        ensures
            r.0.wf(),
            may_begin(self@, (r.0@, r.1@)),
    {
        if !self.session().socket {
            return (ConnectState::Starting, ConnectAction::StartDiscovery);
        }
        match self.latest_peer() {
            Some(peer) => {
                assert(self@.peers.dom().contains(peer@.peer_id));
                try_from(peer, 0)
            },
            None => (
                ConnectState::Finished,
                ConnectAction::Fail("No peers discovered".to_owned()),
            ),
        }
    }
}

/// An attempt that waited for `peer`, after `k` of its addresses gave no
/// connection.
pub open spec fn after_waiting(peer: PeerView, k: nat) -> (StateView, ActionView)
    decreases k,
{
    if k == 0 {
        connect_next(StateView::Waiting, EventView::Waited(WaitView::Peer(peer)))
    } else {
        connect_next(after_waiting(peer, (k - 1) as nat).0, EventView::Tried(false))
    }
}

/// Law: when the peer that was waited for arrives, its addresses are tried from
/// the first on: after `k` failures the address at place `k` is tried, a success
/// there ends the attempt with the connection, and when there is no further
/// address the attempt fails and names the peer.
pub proof fn law_awaited_peer_is_tried_from_first(peer: PeerView, k: nat)
    requires
        k <= peer.listeners.len(),
    ensures
        k < peer.listeners.len() ==> after_waiting(peer, k) == (
            StateView::Trying { peer, next: k },
            ActionView::TryListener(peer.listeners[k as int].text),
        ),
        k < peer.listeners.len() ==> connect_next(
            after_waiting(peer, k).0,
            EventView::Tried(true),
        ).1 == ActionView::Connected,
        k == peer.listeners.len() ==> after_waiting(peer, k) == (
            StateView::Finished,
            ActionView::Fail(
                "Failed to connect to any listeners of peer "@ + decimal(peer.peer_id as nat),
            ),
        ),
    decreases k,
{
    if k > 0 {
        law_awaited_peer_is_tried_from_first(peer, (k - 1) as nat);
    }
}

/// Law: from any address that is tried the attempt goes on to the next one after
/// a failure, to the end after the last, and uses the connection after a success.
pub proof fn law_next_address_after_failure(peer: PeerView, next: nat)
    requires
        next < peer.listeners.len(),
    ensures
        next + 1 < peer.listeners.len() ==> connect_next(
            StateView::Trying { peer, next },
            EventView::Tried(false),
        ) == (
            StateView::Trying { peer, next: next + 1 },
            ActionView::TryListener(peer.listeners[(next + 1) as int].text),
        ),
        next + 1 == peer.listeners.len() ==> connect_next(
            StateView::Trying { peer, next },
            EventView::Tried(false),
        ) == (
            StateView::Finished,
            ActionView::Fail(
                "Failed to connect to any listeners of peer "@ + decimal(peer.peer_id as nat),
            ),
        ),
        connect_next(StateView::Trying { peer, next }, EventView::Tried(true)) == (
            StateView::Finished,
            ActionView::Connected,
        ),
{
}

/// Law: once discovery was started a peer is waited for. Where it could not be
/// started, or no peer came, the attempt fails for just that reason.
pub proof fn law_attempt_fails_for_its_reason(reason: Seq<char>)
    ensures
        connect_next(StateView::Starting, EventView::Started(Ok(()))) == (
            StateView::Waiting,
            ActionView::AwaitPeer,
        ),
        connect_next(StateView::Starting, EventView::Started(Err(reason))) == (
            StateView::Finished,
            ActionView::Fail(reason),
        ),
        connect_next(StateView::Waiting, EventView::Waited(WaitView::TimedOut(reason))) == (
            StateView::Finished,
            ActionView::Fail(reason),
        ),
        connect_next(StateView::Waiting, EventView::Waited(WaitView::Closed)) == (
            StateView::Finished,
            ActionView::Fail("Discovery channel closed"@),
        ),
{
}

/// Law: an attempt on a discovery that does not run begins by starting it. On one
/// that runs and knows nobody it fails at once. On one that runs and knows peers
/// it begins with the first address of a known peer that none was heard of after.
pub proof fn law_attempt_begins(node: ConnectorView, begun: (StateView, ActionView), k: PeerId)
    requires
        node.wf(),
        may_begin(node, begun),
    ensures
        !node.session.socket ==> begun == (StateView::Starting, ActionView::StartDiscovery),
        node.session.socket && node.peers.dom().len() == 0 ==> begun == (
            StateView::Finished,
            ActionView::Fail("No peers discovered"@),
        ),
        node.session.socket && node.peers.contains_key(k) ==> {
            &&& begun.0 matches StateView::Trying { peer, next }
            &&& next == 0
            &&& begun.1 == ActionView::TryListener(peer.listeners[0].text)
            &&& node.peers.contains_key(peer.peer_id)
            &&& node.peers[peer.peer_id] == peer
            &&& node.peers[k].last_seen <= peer.last_seen
        },
{
    if node.peers.dom().len() == 0 {
        assert(node.peers =~= Map::<PeerId, PeerView>::empty());
    }
    if node.session.socket && node.peers.contains_key(k) {
        law_known_peer_is_tried(node, begun, k);
    }
}

/// Law: each state waits for the one kind of event that it is named after, and a
/// finished attempt for none.
pub proof fn law_states_wait_for_their_events(
    event: EventView,
    peer: PeerView,
    next: nat,
    state: ConnectState,
)
    ensures
        expects(StateView::Starting, event) <==> event is Started,
        expects(StateView::Waiting, event) <==> event is Waited,
        expects(StateView::Trying { peer, next }, event) <==> event is Tried,
        !expects(StateView::Finished, event),
        state.wf() <==> (state is Trying ==> state->next < state->peer.listeners@.len()),
{
}

/// Law: the values of states, events and actions are those of their parts.
pub proof fn law_attempt_by_parts(peer: DiscoveredPeer, next: usize, text: String, ok: bool)
    ensures
        ConnectState::Starting@ == StateView::Starting,
        ConnectState::Waiting@ == StateView::Waiting,
        (ConnectState::Trying { peer, next })@ == (StateView::Trying {
            peer: peer@,
            next: next as nat,
        }),
        ConnectState::Finished@ == StateView::Finished,
        ConnectEvent::Started(Ok(()))@ == EventView::Started(Ok(())),
        ConnectEvent::Started(Err(text))@ == EventView::Started(Err(text@)),
        ConnectEvent::Waited(WaitResult::Peer(peer))@ == EventView::Waited(WaitView::Peer(peer@)),
        ConnectEvent::Waited(WaitResult::Closed)@ == EventView::Waited(WaitView::Closed),
        ConnectEvent::Waited(WaitResult::TimedOut(text))@ == EventView::Waited(
            WaitView::TimedOut(text@),
        ),
        ConnectEvent::Tried(ok)@ == EventView::Tried(ok),
        ConnectAction::StartDiscovery@ == ActionView::StartDiscovery,
        ConnectAction::AwaitPeer@ == ActionView::AwaitPeer,
        ConnectAction::TryListener(text)@ == ActionView::TryListener(text@),
        ConnectAction::Connected@ == ActionView::Connected,
        ConnectAction::Fail(text)@ == ActionView::Fail(text@),
{
}

} // verus!
