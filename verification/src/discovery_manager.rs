//! What a node does about the peers that discovery finds.

use vstd::pervasive::unreached;
use vstd::prelude::*;

use crate::context::{CtxView, GlobalCtx};
use crate::listener::{
    effective_port, endpoint_matches, opt_url, parsed_url, same_endpoint_spec, url_views,
    ListenerUrl, UrlView,
};
use crate::message::PeerId;
use crate::multicast_discovery::{
    ConnectorView, DiscoveryError, MulticastDiscoveryConnector, PeerManagerRef, Session,
};
use crate::peers::{is_listing, peer_views, DiscoveredPeer, PeerView};
use crate::socket_setup::SetupStep;
use crate::text::{opt_text, text_is, texts};

verus! {

/// Whether an address, read as `parsed`, is that of one of the given listeners:
/// its text is the same, or it has the same host and port under any scheme.
pub open spec fn is_listed(ours: Seq<UrlView>, text: Seq<char>, parsed: Option<UrlView>) -> bool {
    exists|i: int|
        0 <= i < ours.len() && ((#[trigger] ours[i]).text == text || (parsed matches Some(url)
            && same_endpoint_spec(ours[i], url)))
}

/// Whether an address is that of one of the given listeners.
pub open spec fn is_ours(ours: Seq<UrlView>, text: Seq<char>) -> bool {
    is_listed(ours, text, parsed_url(text))
}

/// Which addresses are those of the given listeners.
pub open spec fn own_flags(ours: Seq<UrlView>, addresses: Seq<Seq<char>>) -> Seq<bool> {
    addresses.map_values(|t: Seq<char>| is_ours(ours, t))
}

/// Law: a node knows each of its own listeners, and an address on the same host
/// and port under another scheme, as its own. Without listeners it knows none.
pub proof fn law_own_listener_recognised(ours: Seq<UrlView>, i: int, text: Seq<char>)
    ensures
        0 <= i < ours.len() ==> is_ours(ours, ours[i].text),
        0 <= i < ours.len() && (parsed_url(text) matches Some(url) && url.host_str
            == ours[i].host_str && effective_port(url) == effective_port(ours[i])) ==> is_ours(ours, text),
        ours.len() == 0 ==> !is_ours(ours, text),
{
}

/// Law: a node with more listeners knows no fewer addresses as its own.
pub proof fn law_own_listeners_monotone(fewer: Seq<UrlView>, more: Seq<UrlView>, text: Seq<char>)
    requires
        forall|i: int| 0 <= i < fewer.len() ==> more.contains(#[trigger] fewer[i]),
    ensures
        is_ours(fewer, text) ==> is_ours(more, text),
{
    if is_ours(fewer, text) {
        let i = choose|i: int|
            0 <= i < fewer.len() && ((#[trigger] fewer[i]).text == text || (parsed_url(
                text,
            ) matches Some(url) && same_endpoint_spec(fewer[i], url)));
        assert(more.contains(fewer[i]));
        let j = choose|j: int| 0 <= j < more.len() && more[j] == fewer[i];
        assert(more[j].text == fewer[i].text);
    }
}

/// What is being done about a peer.
#[derive(Clone, Copy, Debug, PartialEq, Eq, Structural)]
pub enum HandlerPhase {
    /// The connectors are being listed, to see whether the address at this place
    /// has one.
    Listing(usize),
    /// A lasting connector for the address at this place is being added.
    Adding(usize),
    /// A connector for an immediate connection to the address at this place is
    /// being made.
    Creating(usize),
    /// There is nothing left to do.
    Done,
}

/// What happened while a peer was dealt with.
#[derive(Debug)]
pub enum HandlerEvent {
    /// The addresses of the connectors that there are; a connector may have none.
    Connectors(Vec<Option<String>>),
    /// A connector was added, or could not be.
    Added(bool),
    /// A connector was made, or could not be.
    Created(bool),
}

/// What to do next about a peer.
#[derive(Debug)]
pub enum HandlerAction {
    /// List the connectors that there are.
    ListConnectors,
    /// Add a lasting connector for this address.
    AddConnector(String),
    /// Make a connector for an immediate connection to this address.
    CreateConnector(String),
    /// Connect at once with the connector that was made for this address. This
    /// is the last thing to do.
    DirectConnect(String),
    /// Nothing.
    Done,
}

/// The mathematical value of a [`HandlerEvent`].
pub enum HandlerEventView {
    Connectors(Seq<Option<Seq<char>>>),
    Added(bool),
    Created(bool),
}

/// The mathematical value of a [`HandlerAction`].
pub enum HandlerActionView {
    ListConnectors,
    AddConnector(Seq<char>),
    CreateConnector(Seq<char>),
    DirectConnect(Seq<char>),
    Done,
}

/// The contents of optional strings.
pub open spec fn opt_texts(s: Seq<Option<String>>) -> Seq<Option<Seq<char>>> {
    s.map_values(|t: Option<String>| opt_text(t))
}

impl View for HandlerEvent {
    type V = HandlerEventView;

    open spec fn view(&self) -> HandlerEventView {
        match *self {
            HandlerEvent::Connectors(c) => HandlerEventView::Connectors(opt_texts(c@)),
            HandlerEvent::Added(ok) => HandlerEventView::Added(ok),
            HandlerEvent::Created(ok) => HandlerEventView::Created(ok),
        }
    }
}

impl View for HandlerAction {
    type V = HandlerActionView;

    open spec fn view(&self) -> HandlerActionView {
        match *self {
            HandlerAction::ListConnectors => HandlerActionView::ListConnectors,
            HandlerAction::AddConnector(t) => HandlerActionView::AddConnector(t@),
            HandlerAction::CreateConnector(t) => HandlerActionView::CreateConnector(t@),
            HandlerAction::DirectConnect(t) => HandlerActionView::DirectConnect(t@),
            HandlerAction::Done => HandlerActionView::Done,
        }
    }
}

/// The first place from `i` on whose address is not the node's own, or the
/// number of places.
pub open spec fn first_foreign(own: Seq<bool>, i: nat) -> nat
    decreases own.len() - i,
{
    if i >= own.len() {
        own.len()
    } else if own[i as int] {
        first_foreign(own, i + 1)
    } else {
        i
    }
}

/// Making an immediate connection, from the address at place `i` on.
pub open spec fn connecting(addresses: Seq<Seq<char>>, own: Seq<bool>, i: nat) -> (
    HandlerPhase,
    HandlerActionView,
) {
    let j = first_foreign(own, i);
    if j < addresses.len() {
        (
            HandlerPhase::Creating(j as usize),
            HandlerActionView::CreateConnector(addresses[j as int]),
        )
    } else {
        (HandlerPhase::Done, HandlerActionView::Done)
    }
}

/// Adding a lasting connector, from the address at place `i` on, and then making
/// an immediate connection.
pub open spec fn registering(addresses: Seq<Seq<char>>, own: Seq<bool>, i: nat) -> (
    HandlerPhase,
    HandlerActionView,
) {
    if i < addresses.len() {
        (HandlerPhase::Listing(i as usize), HandlerActionView::ListConnectors)
    } else {
        connecting(addresses, own, 0)
    }
}

/// Whether an event is one that the phase waits for.
pub open spec fn handler_expects(phase: HandlerPhase, event: HandlerEventView) -> bool {
    match phase {
        HandlerPhase::Listing(_) => event is Connectors,
        HandlerPhase::Adding(_) => event is Added,
        HandlerPhase::Creating(_) => event is Created,
        HandlerPhase::Done => false,
    }
}

/// What an event leads to, for a peer with the given addresses, of which `own`
/// tells the node's own.
pub open spec fn handler_next(
    addresses: Seq<Seq<char>>,
    own: Seq<bool>,
    phase: HandlerPhase,
    event: HandlerEventView,
) -> (HandlerPhase, HandlerActionView)
    recommends
        handler_expects(phase, event),
{
    match (phase, event) {
        (HandlerPhase::Listing(i), HandlerEventView::Connectors(c)) => if c.contains(
            Some(addresses[i as int]),
        ) || own[i as int] {
            registering(addresses, own, (i + 1) as nat)
        } else {
            (HandlerPhase::Adding(i), HandlerActionView::AddConnector(addresses[i as int]))
        },
        (HandlerPhase::Adding(i), HandlerEventView::Added(ok)) => if ok {
            connecting(addresses, own, 0)
        } else {
            registering(addresses, own, (i + 1) as nat)
        },
        (HandlerPhase::Creating(i), HandlerEventView::Created(ok)) => if ok {
            (HandlerPhase::Done, HandlerActionView::DirectConnect(addresses[i as int]))
        } else {
            connecting(addresses, own, (i + 1) as nat)
        },
        _ => arbitrary(),
    }
}

/// Whether a phase is about an address that there is.
pub open spec fn phase_in_range(phase: HandlerPhase, n: nat) -> bool {
    match phase {
        HandlerPhase::Listing(i) => i < n,
        HandlerPhase::Adding(i) => i < n,
        HandlerPhase::Creating(i) => i < n,
        HandlerPhase::Done => true,
    }
}

/// How many events are still to come, at most, for a peer with `n` addresses.
pub open spec fn events_left(phase: HandlerPhase, n: nat) -> int {
    match phase {
        HandlerPhase::Listing(i) => 2 * (n - i) + n,
        HandlerPhase::Adding(i) => 2 * (n - i) + n - 1,
        HandlerPhase::Creating(i) => n - i,
        HandlerPhase::Done => 0,
    }
}

proof fn lemma_first_foreign(own: Seq<bool>, i: nat)
    requires
        i <= own.len(),
    ensures
        i <= first_foreign(own, i) <= own.len(),
        first_foreign(own, i) < own.len() ==> !own[first_foreign(own, i) as int],
        forall|k: int| i <= k < first_foreign(own, i) ==> own[k],
    decreases own.len() - i,
{
    if i < own.len() && own[i as int] {
        lemma_first_foreign(own, i + 1);
    }
}

/// Law: whatever its listeners are at the time, a node never adds or makes a
/// connector for an address that is one of its own, and never adds one for an
/// address that some connector has. That holds of every event, and of what is
/// done first about a peer.
pub proof fn law_never_contacts_own_listener(
    ours: Seq<UrlView>,
    addresses: Seq<Seq<char>>,
    phase: HandlerPhase,
    event: HandlerEventView,
)
    requires
        addresses.len() <= usize::MAX,
        phase_in_range(phase, addresses.len()),
        handler_expects(phase, event),
    ensures
        ({
            let own = own_flags(ours, addresses);
            let action = handler_next(addresses, own, phase, event).1;
            &&& action matches HandlerActionView::AddConnector(t) ==> !is_ours(ours, t) && (
            event matches HandlerEventView::Connectors(c) && !c.contains(Some(t)))
            &&& action matches HandlerActionView::CreateConnector(t) ==> !is_ours(ours, t)
        }),
        ({
            let first = registering(addresses, own_flags(ours, addresses), 0).1;
            first == HandlerActionView::ListConnectors || first == HandlerActionView::Done
        }),
{
    law_never_contacts_itself(addresses, own_flags(ours, addresses), phase, event);
}

/// One event while peers are dealt with one after the other.
pub struct HandlerMove {
    /// The node's listeners at the time.
    pub ours: Seq<UrlView>,
    /// The addresses of the peer.
    pub addresses: Seq<Seq<char>>,
    pub phase: HandlerPhase,
    pub event: HandlerEventView,
}

impl HandlerMove {
    /// The phase that the event leads to.
    pub open spec fn next_phase(self) -> HandlerPhase {
        handler_next(
            self.addresses,
            own_flags(self.ours, self.addresses),
            self.phase,
            self.event,
        ).0
    }

    /// Whether this is the first event for a peer.
    pub open spec fn begins(self) -> bool {
        self.phase == registering(self.addresses, own_flags(self.ours, self.addresses), 0).0
    }

    /// The address that got a lasting connector by this event, if one did.
    pub open spec fn added(self) -> Option<Seq<char>> {
        match (self.phase, self.event) {
            (HandlerPhase::Adding(i), HandlerEventView::Added(true)) => Some(
                self.addresses[i as int],
            ),
            _ => None,
        }
    }
}

/// Whether moves are those of dealing with peers one after the other: each peer
/// is dealt with to the end before the next.
pub open spec fn is_handling(moves: Seq<HandlerMove>) -> bool {
    &&& forall|i: int|
        0 <= i < moves.len() ==> (#[trigger] moves[i]).addresses.len() <= usize::MAX
            && phase_in_range(moves[i].phase, moves[i].addresses.len()) && handler_expects(
            moves[i].phase,
            moves[i].event,
        )
    &&& moves.len() > 0 ==> moves[0].begins()
    &&& forall|i: int|
        0 < i < moves.len() ==> if moves[i - 1].next_phase() is Done {
            (#[trigger] moves[i]).begins()
        } else {
            moves[i].addresses == moves[i - 1].addresses && moves[i].phase
                == moves[i - 1].next_phase()
        }
}

/// Whether a connector that was added is listed from then on.
pub open spec fn connectors_last(moves: Seq<HandlerMove>) -> bool {
    forall|i: int, j: int|
        0 <= i < j < moves.len() ==> ((#[trigger] moves[i]).added() matches Some(t) ==> (
        (#[trigger] moves[j]).event matches HandlerEventView::Connectors(c) ==> c.contains(
            Some(t),
        )))
}

/// Law: over any number of peers, a lasting connector is never added twice for
/// one address, as long as the connectors that were added are still there.
pub proof fn law_no_connector_added_twice(moves: Seq<HandlerMove>, i: int, j: int)
    requires
        is_handling(moves),
        connectors_last(moves),
        0 <= i < j < moves.len(),
        moves[i].added() is Some,
        moves[j].added() is Some,
    ensures
        moves[i].added() != moves[j].added(),
{
    let before = moves[j - 1];
    let m = moves[j];
    assert(phase_in_range(before.phase, before.addresses.len()));
    assert(!(registering(m.addresses, own_flags(m.ours, m.addresses), 0).0 is Adding));
    assert(before.phase is Listing);
    assert(i < j - 1);
}

/// Law: a node never adds or makes a connector to one of its own addresses, and
/// never adds one for an address that has one.
pub proof fn law_never_contacts_itself(
    addresses: Seq<Seq<char>>,
    own: Seq<bool>,
    phase: HandlerPhase,
    event: HandlerEventView,
)
    requires
        own.len() == addresses.len() <= usize::MAX,
        phase_in_range(phase, addresses.len()),
        handler_expects(phase, event),
    ensures
        ({
            let (next, action) = handler_next(addresses, own, phase, event);
            &&& action matches HandlerActionView::AddConnector(t) ==> {
                &&& next matches HandlerPhase::Adding(i)
                &&& addresses[i as int] == t
                &&& !own[i as int]
                &&& event matches HandlerEventView::Connectors(c) && !c.contains(Some(t))
            }
            &&& action matches HandlerActionView::CreateConnector(t) ==> {
                &&& next matches HandlerPhase::Creating(i)
                &&& addresses[i as int] == t
                &&& !own[i as int]
            }
            &&& action matches HandlerActionView::DirectConnect(t) ==> {
                &&& phase matches HandlerPhase::Creating(i)
                &&& addresses[i as int] == t
            }
        }),
{
    lemma_first_foreign(own, 0);
    match phase {
        HandlerPhase::Creating(i) => lemma_first_foreign(own, (i + 1) as nat),
        _ => {},
    }
}

/// Law: every event brings a peer nearer to being dealt with, so that at most
/// three events per address are needed, whatever they bring.
pub proof fn law_handling_ends(
    addresses: Seq<Seq<char>>,
    own: Seq<bool>,
    phase: HandlerPhase,
    event: HandlerEventView,
)
    requires
        own.len() == addresses.len() <= usize::MAX,
        phase_in_range(phase, addresses.len()),
        handler_expects(phase, event),
    ensures
        phase_in_range(handler_next(addresses, own, phase, event).0, addresses.len()),
        0 <= events_left(handler_next(addresses, own, phase, event).0, addresses.len())
            < events_left(phase, addresses.len()) <= 3 * addresses.len(),
{
    lemma_first_foreign(own, 0);
    match phase {
        HandlerPhase::Creating(i) => lemma_first_foreign(own, (i + 1) as nat),
        _ => {},
    }
}

/// Law: one lasting connector is enough: once one was added, or none could be,
/// no other is added for the peer.
pub proof fn law_one_lasting_connector(
    addresses: Seq<Seq<char>>,
    own: Seq<bool>,
    phase: HandlerPhase,
    event: HandlerEventView,
)
    requires
        own.len() == addresses.len() <= usize::MAX,
        phase_in_range(phase, addresses.len()),
        handler_expects(phase, event),
        event == HandlerEventView::Added(true) || phase is Creating,
    ensures
        handler_next(addresses, own, phase, event).0 is Creating || handler_next(
            addresses,
            own,
            phase,
            event,
        ).0 is Done,
        !(handler_next(addresses, own, phase, event).1 is AddConnector),
{
}

/// What would come of each thing that can be tried for a peer's addresses.
pub struct Surroundings {
    /// The addresses of the connectors there are when the address at each place
    /// is looked at.
    pub connectors: Seq<Seq<Option<Seq<char>>>>,
    /// Whether a lasting connector can be added for the address at each place.
    pub can_add: Seq<bool>,
    /// Whether a connector can be made for the address at each place.
    pub can_create: Seq<bool>,
}

impl Surroundings {
    /// The event that a phase meets with.
    pub open spec fn answer(self, phase: HandlerPhase) -> HandlerEventView {
        match phase {
            HandlerPhase::Listing(i) => HandlerEventView::Connectors(self.connectors[i as int]),
            HandlerPhase::Adding(i) => HandlerEventView::Added(self.can_add[i as int]),
            HandlerPhase::Creating(i) => HandlerEventView::Created(self.can_create[i as int]),
            HandlerPhase::Done => arbitrary(),
        }
    }
}

/// What was achieved for a peer.
pub struct Handled {
    /// The place of the address that got a lasting connector, if one did.
    pub added: Option<int>,
    /// The place of the address that is connected to at once, if one is.
    pub direct: Option<int>,
}

/// What is achieved for a peer from a phase on.
pub open spec fn handled_from(
    addresses: Seq<Seq<char>>,
    own: Seq<bool>,
    around: Surroundings,
    phase: HandlerPhase,
) -> Handled
    decreases events_left(phase, addresses.len()),
{
    let n = addresses.len();
    let next = handler_next(addresses, own, phase, around.answer(phase)).0;
    if phase is Done || !(0 <= events_left(next, n) < events_left(phase, n)) {
        Handled { added: None, direct: None }
    } else {
        let rest = handled_from(addresses, own, around, next);
        match (phase, around.answer(phase)) {
            (HandlerPhase::Adding(i), HandlerEventView::Added(true)) => Handled {
                added: Some(i as int),
                ..rest
            },
            (HandlerPhase::Creating(i), HandlerEventView::Created(true)) => Handled {
                direct: Some(i as int),
                ..rest
            },
            _ => rest,
        }
    }
}

/// Whether `r` is the first place from `from` on at which `p` holds, or `None`
/// where it holds at none.
pub open spec fn is_first(p: spec_fn(int) -> bool, from: int, n: int, r: Option<int>) -> bool {
    match r {
        Some(i) => from <= i < n && p(i) && forall|j: int| from <= j < i ==> !#[trigger] p(j),
        None => forall|j: int| from <= j < n ==> !#[trigger] p(j),
    }
}

/// The places whose address can get a lasting connector: it has none, it is not
/// the node's own, and adding one works.
pub open spec fn addable(
    addresses: Seq<Seq<char>>,
    own: Seq<bool>,
    around: Surroundings,
) -> spec_fn(int) -> bool {
    |i: int|
        !own[i] && !around.connectors[i].contains(Some(addresses[i])) && around.can_add[i]
}

/// The places whose address can be connected to at once: it is not the node's
/// own, and making a connector works.
pub open spec fn creatable(own: Seq<bool>, around: Surroundings) -> spec_fn(int) -> bool {
    |i: int| !own[i] && around.can_create[i]
}

proof fn lemma_handled_creating(
    addresses: Seq<Seq<char>>,
    own: Seq<bool>,
    around: Surroundings,
    i: nat,
)
    requires
        own.len() == addresses.len() <= usize::MAX,
        i <= own.len(),
    ensures
        handled_from(addresses, own, around, connecting(addresses, own, i).0).added is None,
        is_first(
            creatable(own, around),
            i as int,
            addresses.len() as int,
            handled_from(addresses, own, around, connecting(addresses, own, i).0).direct,
        ),
    decreases own.len() - i,
{
    let j = first_foreign(own, i);
    lemma_first_foreign(own, i);
    if j < addresses.len() {
        let phase = HandlerPhase::Creating(j as usize);
        lemma_first_foreign(own, j + 1);
        law_handling_ends(addresses, own, phase, around.answer(phase));
        lemma_handled_creating(addresses, own, around, j + 1);
        reveal_with_fuel(handled_from, 2);
    }
}

proof fn lemma_handled_registering(
    addresses: Seq<Seq<char>>,
    own: Seq<bool>,
    around: Surroundings,
    i: nat,
)
    requires
        own.len() == addresses.len() <= usize::MAX,
        i <= own.len(),
    ensures
        ({
            let r = handled_from(addresses, own, around, registering(addresses, own, i).0);
            let n = addresses.len() as int;
            &&& is_first(addable(addresses, own, around), i as int, n, r.added)
            &&& is_first(creatable(own, around), 0, n, r.direct)
        }),
    decreases own.len() - i,
{
    if i < addresses.len() {
        let listing = HandlerPhase::Listing(i as usize);
        let adding = HandlerPhase::Adding(i as usize);
        law_handling_ends(addresses, own, listing, around.answer(listing));
        law_handling_ends(addresses, own, adding, around.answer(adding));
        lemma_handled_registering(addresses, own, around, i + 1);
        lemma_handled_creating(addresses, own, around, 0);
        reveal_with_fuel(handled_from, 2);
    } else {
        lemma_handled_creating(addresses, own, around, 0);
    }
}

/// Law: a peer that was found gets a lasting connector for the first of its
/// addresses that can get one, and is connected to at once at the first of its
/// addresses that can be connected to. Neither depends on whether the other
/// succeeded.
pub proof fn law_peer_handled(
    addresses: Seq<Seq<char>>,
    own: Seq<bool>,
    around: Surroundings,
)
    requires
        own.len() == addresses.len() <= usize::MAX,
    ensures
        ({
            let r = handled_from(addresses, own, around, registering(addresses, own, 0).0);
            let n = addresses.len() as int;
            &&& is_first(addable(addresses, own, around), 0, n, r.added)
            &&& is_first(creatable(own, around), 0, n, r.direct)
        }),
{
    lemma_handled_registering(addresses, own, around, 0);
}

/// Whether some connector has the given address.
pub fn has_connector(connectors: &Vec<Option<String>>, address: &String) -> (r: bool)
    ensures
        r == opt_texts(connectors@).contains(Some(address@)),
{
    let ghost all = opt_texts(connectors@);
    let mut i: usize = 0;
    while i < connectors.len()
        invariant
            i <= connectors.len(),
            all == opt_texts(connectors@),
            forall|j: int| 0 <= j < i ==> all[j] != Some(address@),
        decreases connectors.len() - i,
    {
        match &connectors[i] {
            Some(t) => {
                if *t == *address {
                    assert(all[i as int] == Some(address@));
                    return true;
                }
            },
            None => {},
        }
        assert(all[i as int] != Some(address@));
        i = i + 1;
    }
    false
}

/// What is being done about one peer.
#[derive(Debug)]
pub struct PeerHandling {
    addresses: Vec<String>,
    phase: HandlerPhase,
}

impl PeerHandling {
    /// The peer's addresses, in order.
    pub closed spec fn addresses(&self) -> Seq<Seq<char>> {
        texts(self.addresses@)
    }

    pub closed spec fn phase(&self) -> HandlerPhase {
        self.phase
    }

    /// The phase is about an address that there is.
    pub open spec fn wf(&self) -> bool {
        &&& self.addresses().len() <= usize::MAX
        &&& phase_in_range(self.phase(), self.addresses().len())
    }

    fn connect_from(&mut self, own: &Vec<bool>, start: usize) -> (action: HandlerAction)
        requires
            own@.len() == old(self).addresses().len(),
            start <= own@.len(),
        ensures
            final(self).wf(),
            final(self).addresses() == old(self).addresses(),
            (final(self).phase(), action@) == connecting(
                old(self).addresses(),
                own@,
                start as nat,
            ),
    {
        let mut j: usize = start;
        while j < own.len() && own[j]
            invariant
                start <= j <= own.len(),
                first_foreign(own@, j as nat) == first_foreign(own@, start as nat),
            decreases own.len() - j,
        {
            j = j + 1;
        }
        if j < self.addresses.len() {
            self.phase = HandlerPhase::Creating(j);
            HandlerAction::CreateConnector(self.addresses[j].clone())
        } else {
            self.phase = HandlerPhase::Done;
            HandlerAction::Done
        }
    }

    fn register_from(&mut self, own: &Vec<bool>, start: usize) -> (action: HandlerAction)
        requires
            own@.len() == old(self).addresses().len(),
        ensures
            final(self).wf(),
            final(self).addresses() == old(self).addresses(),
            (final(self).phase(), action@) == registering(
                old(self).addresses(),
                own@,
                start as nat,
            ),
    {
        if start < self.addresses.len() {
            self.phase = HandlerPhase::Listing(start);
            HandlerAction::ListConnectors
        } else {
            self.connect_from(own, 0)
        }
    }

    /// Begins to deal with a peer, given which of its addresses are the node's
    /// own.
    pub fn begin_with(peer: &DiscoveredPeer, own: &Vec<bool>) -> (r: (PeerHandling, HandlerAction))
        requires
            own@.len() == peer.listeners@.len(),
        ensures
            r.0.wf(),
            r.0.addresses() == peer@.listeners.map_values(|u: UrlView| u.text),
            (r.0.phase(), r.1@) == registering(r.0.addresses(), own@, 0),
    {
        Self::begin_at(addresses_of(peer), own)
    }

    fn begin_at(addresses: Vec<String>, own: &Vec<bool>) -> (r: (PeerHandling, HandlerAction))
        requires
            own@.len() == texts(addresses@).len(),
        ensures
            r.0.wf(),
            r.0.addresses() == texts(addresses@),
            (r.0.phase(), r.1@) == registering(r.0.addresses(), own@, 0),
    {
        let mut handling = PeerHandling { addresses, phase: HandlerPhase::Done };
        let action = handling.register_from(own, 0);
        (handling, action)
    }

    /// Whether an event is one that is waited for.
    pub fn awaits(&self, event: &HandlerEvent) -> (r: bool)
        ensures
            r == handler_expects(self.phase(), event@),
    {
        match (self.phase, event) {
            (HandlerPhase::Listing(_), HandlerEvent::Connectors(_)) => true,
            (HandlerPhase::Adding(_), HandlerEvent::Added(_)) => true,
            (HandlerPhase::Creating(_), HandlerEvent::Created(_)) => true,
            _ => false,
        }
    }

    /// Decides what an event leads to, given which of the addresses are the
    /// node's own.
    pub fn advance_with(&mut self, own: &Vec<bool>, event: HandlerEvent) -> (action: HandlerAction)
        requires
            old(self).wf(),
            own@.len() == old(self).addresses().len(),
            handler_expects(old(self).phase(), event@),
        ensures
            final(self).wf(),
            final(self).addresses() == old(self).addresses(),
            (final(self).phase(), action@) == handler_next(
                old(self).addresses(),
                own@,
                old(self).phase(),
                event@,
            ),
    {
        match (self.phase, event) {
            (HandlerPhase::Listing(i), HandlerEvent::Connectors(connectors)) => {
                if has_connector(&connectors, &self.addresses[i]) || own[i] {
                    self.register_from(own, i + 1)
                } else {
                    self.phase = HandlerPhase::Adding(i);
                    HandlerAction::AddConnector(self.addresses[i].clone())
                }
            },
            (HandlerPhase::Adding(i), HandlerEvent::Added(ok)) => {
                if ok {
                    self.connect_from(own, 0)
                } else {
                    self.register_from(own, i + 1)
                }
            },
            (HandlerPhase::Creating(i), HandlerEvent::Created(ok)) => {
                if ok {
                    self.phase = HandlerPhase::Done;
                    HandlerAction::DirectConnect(self.addresses[i].clone())
                } else {
                    self.connect_from(own, i + 1)
                }
            },
            _ => unreached(),
        }
    }

    /// Decides what an event leads to, on a node as `global_ctx` describes it.
    pub fn advance(&mut self, global_ctx: &GlobalCtx, event: HandlerEvent) -> (action: HandlerAction)
        requires
            old(self).wf(),
            handler_expects(old(self).phase(), event@),
        ensures
            final(self).wf(),
            final(self).addresses() == old(self).addresses(),
            (final(self).phase(), action@) == handler_next(
                old(self).addresses(),
                own_flags(global_ctx@.running_listeners, old(self).addresses()),
                old(self).phase(),
                event@,
            ),
    {
        let own = own_listeners(global_ctx, &self.addresses);
        self.advance_with(&own, event)
    }
}

/// Tells which addresses are those of the node's own listeners.
pub fn own_listeners(global_ctx: &GlobalCtx, addresses: &Vec<String>) -> (r: Vec<bool>)
    ensures
        r@ == own_flags(global_ctx@.running_listeners, texts(addresses@)),
{
    let ghost flags = own_flags(global_ctx@.running_listeners, texts(addresses@));
    let mut r: Vec<bool> = Vec::new();
    let mut i: usize = 0;
    while i < addresses.len()
        invariant
            i <= addresses.len(),
            flags == own_flags(global_ctx@.running_listeners, texts(addresses@)),
            r@ =~= flags.take(i as int),
        decreases addresses.len() - i,
    {
        let own: bool = DiscoveryManager::is_our_listener(addresses[i].as_str(), global_ctx);
        r.push(own);
        proof {
            assert(flags[i as int] == own);
        }
        i = i + 1;
    }
    r
}

/// Whether an address, read as `parsed`, is that of one of the given listeners.
pub fn listed(ours: &Vec<ListenerUrl>, text: &str, parsed: &Option<ListenerUrl>) -> (r: bool)
    ensures
        r == is_listed(url_views(ours@), text@, opt_url(*parsed)),
{
    let ghost all = url_views(ours@);
    let mut i: usize = 0;
    while i < ours.len()
        invariant
            i <= ours.len(),
            all == url_views(ours@),
            forall|j: int|
                0 <= j < i ==> (#[trigger] all[j]).text != text@ && !(opt_url(
                    *parsed,
                ) matches Some(url) && same_endpoint_spec(all[j], url)),
        decreases ours.len() - i,
    {
        assert(all[i as int] == ours@[i as int]@);
        if text_is(&ours[i].text, text) {
            return true;
        }
        match parsed {
            Some(url) => {
                if ours[i].same_endpoint(url) {
                    return true;
                }
            },
            None => {},
        }
        i = i + 1;
    }
    false
}

/// The discovery of a node and what is done about the peers it finds.
pub struct DiscoveryManager {
    pub global_ctx: GlobalCtx,
    pub peer_manager: PeerManagerRef,
    /// The running discovery, if it was started.
    pub multicast_connector: Option<MulticastDiscoveryConnector>,
}

/// The mathematical value of a [`DiscoveryManager`].
pub struct ManagerView {
    pub ctx: CtxView,
    pub peer_manager: PeerManagerRef,
    pub connector: Option<ConnectorView>,
}

impl View for DiscoveryManager {
    type V = ManagerView;

    open spec fn view(&self) -> ManagerView {
        ManagerView {
            ctx: self.global_ctx@,
            peer_manager: self.peer_manager,
            connector: match self.multicast_connector {
                Some(c) => Some(c@),
                None => None,
            },
        }
    }
}

impl ManagerView {
    /// The manager after it was stopped.
    pub open spec fn stopped(self) -> ManagerView {
        ManagerView { connector: None, ..self }
    }

    /// Whether stopping the manager means telling a loop to stop.
    pub open spec fn has_loop(self) -> bool {
        self.connector matches Some(c) && c.session.shutdown_tx
    }

    /// Whether `s` lists the peers that discovery knows. Without discovery there
    /// are none.
    pub open spec fn listed_as(self, s: Seq<PeerView>) -> bool {
        match self.connector {
            Some(c) => is_listing(s, c.peers),
            None => s.len() == 0,
        }
    }

    /// A discovery that was just started, with nobody found yet.
    pub open spec fn fresh_connector(self) -> ConnectorView {
        ConnectorView {
            ctx: self.ctx,
            peer_manager: self.peer_manager,
            session: Session::running(),
            peers: Map::empty(),
        }
    }
}

/// What starting the manager calls for.
#[derive(Clone, Copy, Debug, PartialEq, Eq, Structural)]
pub enum StartAction {
    /// Discovery is switched off: nothing.
    Nothing,
    /// Open the multicast socket.
    OpenSocket,
}

impl DiscoveryManager {
    /// The discovery, if there is one, is as its operations keep it, and is that
    /// of the manager's node.
    pub open spec fn wf(&self) -> bool {
        self@.connector matches Some(c) ==> c.wf() && c.ctx.id == self@.ctx.id
    }

    /// A manager that was not started.
    pub fn new(global_ctx: GlobalCtx, peer_manager: PeerManagerRef) -> (r: DiscoveryManager)
        ensures
            r.wf(),
            r@ == (ManagerView { ctx: global_ctx@, peer_manager, connector: None }),
    {
        DiscoveryManager { global_ctx, peer_manager, multicast_connector: None }
    }

    /// Takes note of how the node and its surroundings are now. It is the same
    /// instance still.
    pub fn refresh(&mut self, global_ctx: GlobalCtx, peer_manager: PeerManagerRef)
        requires
            old(self).wf(),
            global_ctx@.id == old(self)@.ctx.id,
        ensures
            final(self).wf(),
            final(self)@ == (ManagerView {
                ctx: global_ctx@,
                peer_manager,
                connector: match old(self)@.connector {
                    Some(c) => Some(ConnectorView { ctx: global_ctx@, peer_manager, ..c }),
                    None => None,
                },
            }),
    {
        match &mut self.multicast_connector {
            Some(c) => {
                c.refresh(global_ctx.clone(), peer_manager);
            },
            None => {},
        }
        self.global_ctx = global_ctx;
        self.peer_manager = peer_manager;
    }

    /// Tells what starting the manager calls for.
    pub fn start(&self) -> (r: StartAction)
        ensures
            r == if self@.ctx.enable_multicast_discovery {
                StartAction::OpenSocket
            } else {
                StartAction::Nothing
            },
    {
        if self.global_ctx.enable_multicast_discovery {
            StartAction::OpenSocket
        } else {
            StartAction::Nothing
        }
    }

    /// Starts discovery, given how opening the socket went. A discovery that was
    /// started before is replaced.
    pub fn start_multicast_discovery(&mut self, opened: Result<(), SetupStep>) -> (r: Result<
        Session,
        DiscoveryError,
    >)
        requires
            old(self).wf(),
        ensures
            final(self).wf(),
            match opened {
                Ok(_) => {
                    &&& r == Ok::<Session, DiscoveryError>(Session::running())
                    &&& final(self)@ == (ManagerView {
                        connector: Some(old(self)@.fresh_connector()),
                        ..old(self)@
                    })
                },
                Err(step) => {
                    &&& r == Err::<Session, DiscoveryError>(DiscoveryError::Setup(step))
                    &&& final(self)@ == old(self)@
                },
            },
    {
        let mut connector = MulticastDiscoveryConnector::new_with_peer_manager(
            self.global_ctx.clone(),
            self.peer_manager,
        );
        match connector.start_discovery(opened) {
            Ok(session) => {
                self.multicast_connector = Some(connector);
                Ok(session)
            },
            Err(e) => Err(e),
        }
    }

    /// Stops discovery. Returns whether its loop is to be told.
    pub fn stop(&mut self) -> (signal: bool)
        requires
            old(self).wf(),
        ensures
            final(self).wf(),
            final(self)@ == old(self)@.stopped(),
            signal == old(self)@.has_loop(),
    {
        let signal: bool = match &mut self.multicast_connector {
            Some(c) => c.stop_discovery(),
            None => false,
        };
        self.multicast_connector = None;
        signal
    }

    /// The peers that discovery knows, in no particular order.
    pub fn list_discovered_multicast_peers(&self) -> (r: Vec<DiscoveredPeer>)
        requires
            self.wf(),
        ensures
            self@.listed_as(peer_views(r@)),
    {
        match &self.multicast_connector {
            Some(c) => c.list_discovered_peers(),
            None => Vec::new(),
        }
    }

    /// Begins to deal with a peer that was found: first a lasting connector is
    /// added for one of its addresses, then an immediate connection is made.
    pub fn handle_discovered_peers(peer: &DiscoveredPeer, global_ctx: &GlobalCtx) -> (r: (
        PeerHandling,
        HandlerAction,
    ))
        ensures
            r.0.wf(),
            r.0.addresses() == peer@.listeners.map_values(|u: UrlView| u.text),
            (r.0.phase(), r.1@) == registering(
                r.0.addresses(),
                own_flags(global_ctx@.running_listeners, r.0.addresses()),
                0,
            ),
    {
        let addresses = addresses_of(peer);
        let own = own_listeners(global_ctx, &addresses);
        PeerHandling::begin_at(addresses, &own)
    }

    /// Whether an address is that of one of the node's own listeners.
    pub fn is_our_listener(url_string: &str, global_ctx: &GlobalCtx) -> (r: bool)
        ensures
            r == is_ours(global_ctx@.running_listeners, url_string@),
    {
        let parsed = ListenerUrl::parse(url_string);
        listed(&global_ctx.running_listeners, url_string, &parsed)
    }

    /// Whether an address has the same host and port as one of the node's
    /// listeners, whatever its scheme.
    pub fn same_host_port(our_url: &ListenerUrl, other_url: &str) -> (r: bool)
        ensures
            r == endpoint_matches(our_url@, other_url@),
    {
        match ListenerUrl::parse(other_url) {
            Some(other) => our_url.same_endpoint(&other),
            None => false,
        }
    }
}

/// The addresses of a peer, in order.
pub fn addresses_of(peer: &DiscoveredPeer) -> (r: Vec<String>)
    ensures
        texts(r@) == peer@.listeners.map_values(|u: UrlView| u.text),
{
    let mut r: Vec<String> = Vec::new();
    let ghost all = peer@.listeners.map_values(|u: UrlView| u.text);
    let mut i: usize = 0;
    while i < peer.listeners.len()
        invariant
            i <= peer.listeners.len(),
            all == peer@.listeners.map_values(|u: UrlView| u.text),
            texts(r@) =~= all.take(i as int),
        decreases peer.listeners.len() - i,
    {
        let ghost before = texts(r@);
        r.push(peer.listeners[i].text.clone());
        proof {
            assert(texts(r@) =~= before.push(peer.listeners@[i as int].text@));
            assert(all.take(i + 1) =~= all.take(i as int).push(all[i as int]));
        }
        i = i + 1;
    }
    assert(all.take(all.len() as int) =~= all);
    r
}

/// Law: stopping a manager that was started leaves it as if it never had been,
/// and a manager that is started again begins with nobody found.
pub proof fn law_manager_stop_undoes_start(m: ManagerView)
    requires
        m.connector is None,
    ensures
        (ManagerView { connector: Some(m.fresh_connector()), ..m }).stopped() == m,
        m.fresh_connector().wf(),
        m.fresh_connector().peers.dom().len() == 0,
{
}

/// Law: a manager can be stopped in any state. It then has no discovery and lists
/// no peers, and to stop it again changes nothing and tells nobody.
pub proof fn law_stop_is_final(m: ManagerView, s: Seq<PeerView>)
    ensures
        m.stopped().connector is None,
        m.stopped().listed_as(s) <==> s.len() == 0,
        m.stopped().stopped() == m.stopped(),
        !m.stopped().has_loop(),
        m.connector is None ==> m.stopped() == m && !m.has_loop(),
        m.connector matches Some(c) && c.session == Session::running() ==> m.has_loop(),
{
}

/// Law: an address is the node's own only where some listener of the node has
/// the same text, or the address is a URL and some listener has the same host and
/// leads to the same port. Where every listener differs from it in its text and
/// in its host or port, it is not the node's own.
pub proof fn law_other_address_is_not_own(
    ours: Seq<UrlView>,
    text: Seq<char>,
    parsed: Option<UrlView>,
)
    requires
        forall|i: int|
            0 <= i < ours.len() ==> (#[trigger] ours[i]).text != text && (parsed is Some ==> (
            parsed->0.host_str != ours[i].host_str || effective_port(parsed->0) != effective_port(
                ours[i],
            ))),
    ensures
        !is_listed(ours, text, parsed),
        parsed == parsed_url(text) ==> !is_ours(ours, text),
{
}

/// Law: an address is the node's own where some listener has the same text,
/// whatever it is read as, or where it is read as a URL with the host and the
/// port of some listener.
pub proof fn law_own_address_is_own(
    ours: Seq<UrlView>,
    i: int,
    text: Seq<char>,
    parsed: Option<UrlView>,
)
    requires
        0 <= i < ours.len(),
        ours[i].text == text || (parsed is Some && parsed->0.host_str == ours[i].host_str
            && effective_port(parsed->0) == effective_port(ours[i])),
    ensures
        is_listed(ours, text, parsed),
        parsed == parsed_url(text) ==> is_ours(ours, text),
{
}

/// Law: the addresses of a peer are told apart one by one.
pub proof fn law_flags_by_place(ours: Seq<UrlView>, addresses: Seq<Seq<char>>)
    ensures
        own_flags(ours, addresses).len() == addresses.len(),
        forall|i: int|
            0 <= i < addresses.len() ==> (#[trigger] own_flags(ours, addresses)[i] <==> is_ours(
                ours,
                addresses[i],
            )),
{
}

/// Whether `r` is what making an immediate connection comes to, when only the
/// addresses from place `from` on are left: a connector is made for the first of
/// them that is not the node's own, and where there is none nothing is left to do.
pub open spec fn makes_connection_from(
    addresses: Seq<Seq<char>>,
    own: Seq<bool>,
    from: int,
    r: (HandlerPhase, HandlerActionView),
) -> bool {
    match r.0 {
        HandlerPhase::Creating(j) => {
            &&& from <= j < addresses.len()
            &&& !own[j as int]
            &&& forall|k: int| from <= k < j ==> #[trigger] own[k]
            &&& r.1 == HandlerActionView::CreateConnector(addresses[j as int])
        },
        HandlerPhase::Done => {
            &&& forall|k: int| from <= k < addresses.len() ==> #[trigger] own[k]
            &&& r.1 == HandlerActionView::Done
        },
        _ => false,
    }
}

/// Law: what is done about a peer begins by listing the connectors for its first
/// address. An address that has a connector, or is the node's own, is passed over
/// for the next. For any other a connector is added. Where that fails the next
/// address has its turn, and where it works, or no address is left, an immediate
/// connection is made.
pub proof fn law_lasting_connector_steps(
    addresses: Seq<Seq<char>>,
    own: Seq<bool>,
    i: usize,
    connectors: Seq<Option<Seq<char>>>,
)
    requires
        own.len() == addresses.len() <= usize::MAX,
        i < addresses.len(),
    ensures
        registering(addresses, own, 0) == (
            HandlerPhase::Listing(0),
            HandlerActionView::ListConnectors,
        ),
        ({
            let r = handler_next(
                addresses,
                own,
                HandlerPhase::Listing(i),
                HandlerEventView::Connectors(connectors),
            );
            if connectors.contains(Some(addresses[i as int])) || own[i as int] {
                if i + 1 < addresses.len() {
                    r == (HandlerPhase::Listing((i + 1) as usize), HandlerActionView::ListConnectors)
                } else {
                    makes_connection_from(addresses, own, 0, r)
                }
            } else {
                r == (
                    HandlerPhase::Adding(i),
                    HandlerActionView::AddConnector(addresses[i as int]),
                )
            }
        }),
        ({
            let r = handler_next(
                addresses,
                own,
                HandlerPhase::Adding(i),
                HandlerEventView::Added(false),
            );
            if i + 1 < addresses.len() {
                r == (HandlerPhase::Listing((i + 1) as usize), HandlerActionView::ListConnectors)
            } else {
                makes_connection_from(addresses, own, 0, r)
            }
        }),
        makes_connection_from(
            addresses,
            own,
            0,
            handler_next(
                addresses,
                own,
                HandlerPhase::Adding(i),
                HandlerEventView::Added(true),
            ),
        ),
{
    lemma_first_foreign(own, 0);
}

/// Law: a connector that was made for an address is used to connect to just that
/// address, and that is the last thing done. Where none could be made, the next
/// address that is not the node's own has its turn. About a peer without
/// addresses nothing is done.
pub proof fn law_immediate_connection_steps(addresses: Seq<Seq<char>>, own: Seq<bool>, i: usize)
    requires
        own.len() == addresses.len() <= usize::MAX,
    ensures
        i < addresses.len() ==> handler_next(
            addresses,
            own,
            HandlerPhase::Creating(i),
            HandlerEventView::Created(true),
        ) == (HandlerPhase::Done, HandlerActionView::DirectConnect(addresses[i as int])),
        i < addresses.len() ==> makes_connection_from(
            addresses,
            own,
            i + 1,
            handler_next(
                addresses,
                own,
                HandlerPhase::Creating(i),
                HandlerEventView::Created(false),
            ),
        ),
        addresses.len() == 0 ==> registering(addresses, own, 0) == (
            HandlerPhase::Done,
            HandlerActionView::Done,
        ),
{
    if i < addresses.len() {
        lemma_first_foreign(own, (i + 1) as nat);
    }
}

/// Law: actions and phases go together, both ways. The connectors are listed
/// exactly when they are waited for, a connector is added or made for an address
/// exactly when that is waited for, and nothing more is waited for exactly when
/// the action is to connect at once or there is none.
pub proof fn law_actions_go_with_phases(
    addresses: Seq<Seq<char>>,
    own: Seq<bool>,
    phase: HandlerPhase,
    event: HandlerEventView,
    i: usize,
)
    requires
        own.len() == addresses.len() <= usize::MAX,
        phase_in_range(phase, addresses.len()),
        handler_expects(phase, event),
    ensures
        ({
            let (next, action) = handler_next(addresses, own, phase, event);
            &&& next is Listing <==> action == HandlerActionView::ListConnectors
            &&& next == HandlerPhase::Adding(i) ==> action == HandlerActionView::AddConnector(
                addresses[i as int],
            )
            &&& next is Adding <==> action is AddConnector
            &&& next == HandlerPhase::Creating(i) ==> action == HandlerActionView::CreateConnector(
                addresses[i as int],
            )
            &&& next is Creating <==> action is CreateConnector
            &&& next is Done <==> action is DirectConnect || action is Done
            &&& action is DirectConnect <==> phase is Creating && event
                == HandlerEventView::Created(true)
        }),
{
    lemma_first_foreign(own, 0);
    match phase {
        HandlerPhase::Creating(k) => lemma_first_foreign(own, (k + 1) as nat),
        _ => {},
    }
}

/// Law: each phase waits for the one kind of event that it is named after, and is
/// about an address that there is.
pub proof fn law_phases_wait_for_their_events(i: usize, event: HandlerEventView, n: nat)
    ensures
        handler_expects(HandlerPhase::Listing(i), event) <==> event is Connectors,
        handler_expects(HandlerPhase::Adding(i), event) <==> event is Added,
        handler_expects(HandlerPhase::Creating(i), event) <==> event is Created,
        !handler_expects(HandlerPhase::Done, event),
        phase_in_range(HandlerPhase::Listing(i), n) <==> i < n,
        phase_in_range(HandlerPhase::Adding(i), n) <==> i < n,
        phase_in_range(HandlerPhase::Creating(i), n) <==> i < n,
        phase_in_range(HandlerPhase::Done, n),
{
}

/// Law: the values of events, actions and managers are those of their parts.
pub proof fn law_handling_by_parts(
    connectors: Vec<Option<String>>,
    ok: bool,
    text: String,
    m: DiscoveryManager,
)
    ensures
        HandlerEvent::Connectors(connectors)@ is Connectors,
        HandlerEvent::Connectors(connectors)@->Connectors_0.len() == connectors@.len(),
        forall|i: int|
            0 <= i < connectors@.len() ==> #[trigger] HandlerEvent::Connectors(
                connectors,
            )@->Connectors_0[i] == match connectors@[i] {
                Some(t) => Some(t@),
                None => None,
            },
        HandlerEvent::Added(ok)@ == HandlerEventView::Added(ok),
        HandlerEvent::Created(ok)@ == HandlerEventView::Created(ok),
        HandlerAction::ListConnectors@ == HandlerActionView::ListConnectors,
        HandlerAction::AddConnector(text)@ == HandlerActionView::AddConnector(text@),
        HandlerAction::CreateConnector(text)@ == HandlerActionView::CreateConnector(text@),
        HandlerAction::DirectConnect(text)@ == HandlerActionView::DirectConnect(text@),
        HandlerAction::Done@ == HandlerActionView::Done,
        m@.ctx == m.global_ctx@,
        m@.peer_manager == m.peer_manager,
        m@.connector is Some <==> m.multicast_connector is Some,
        m.multicast_connector matches Some(c) ==> m@.connector == Some(c@),
{
}

/// Law: a discovery that the manager starts is that of the manager's node, runs,
/// and knows nobody. Stopping takes the discovery away and leaves the rest.
pub proof fn law_manager_starts_for_its_node(m: ManagerView, s: Seq<PeerView>)
    ensures
        m.fresh_connector().ctx == m.ctx,
        m.fresh_connector().peer_manager == m.peer_manager,
        m.fresh_connector().peers == Map::<PeerId, PeerView>::empty(),
        m.fresh_connector().session == (Session { socket: true, shutdown_tx: true, peer_tx: true }),
        m.stopped().ctx == m.ctx,
        m.stopped().peer_manager == m.peer_manager,
        m.stopped().connector is None,
        m.has_loop() <==> (m.connector is Some && m.connector->0.session.shutdown_tx),
        m.connector is Some ==> (m.listed_as(s) <==> is_listing(s, m.connector->0.peers)),
{
}

} // verus!
