//! The discovery protocol of one node.

use vstd::prelude::*;
use vstd::string::*;

use crate::connectable::{connectable, connectable_listeners};
use crate::context::{CtxView, GlobalCtx};
use crate::listener::{
    opt_url, parse_listeners, parsed_url, parsed_urls, url_views, ListenerUrl, UrlView,
};
use crate::message::{
    decoding, digest_view, CodecError, DiscoveryMessage, MessageType, MessageView, PeerId,
};
use crate::peers::{
    fresh_peers, is_latest, is_listing, peer_views, DiscoveredPeer, PeerTable, PeerView,
};
use crate::socket_setup::{
    failure_text, failure_text_spec, SetupStep, MULTICAST_ADDR, MULTICAST_PORT,
};
use crate::text::{decimal, decimal_text, texts};

verus! {

/// How often a node announces itself, in seconds.
pub const DISCOVERY_INTERVAL_SECS: u64 = 10;

/// How long to wait for the first peer, in seconds.
pub const QUERY_TIMEOUT_SECS: u64 = 2;

/// The longest datagram that is received whole, in bytes.
pub const DATAGRAM_CAPACITY: usize = 8192;

/// What is known of the manager of a node's peers, which knows the node's number.
#[derive(Clone, Copy, Debug, PartialEq, Eq, Structural)]
pub enum PeerManagerRef {
    /// There is none.
    Absent,
    /// There was one, and it is gone.
    Stale,
    /// There is one, and this is the node's number.
    Alive(PeerId),
}

/// What a running discovery holds on to.
#[derive(Clone, Copy, Debug, PartialEq, Eq, Structural)]
pub struct Session {
    /// There is a socket to send on.
    pub socket: bool,
    /// There is a channel on which the loop is told to stop.
    pub shutdown_tx: bool,
    /// There is a channel on which found peers are handed on.
    pub peer_tx: bool,
}

impl Session {
    /// Nothing is held.
    pub open spec fn stopped() -> Session {
        Session { socket: false, shutdown_tx: false, peer_tx: false }
    }

    /// Everything is held.
    pub open spec fn running() -> Session {
        Session { socket: true, shutdown_tx: true, peer_tx: true }
    }
}

/// Why discovery could not do what it was asked.
#[derive(Clone, Copy, Debug, PartialEq, Eq, Structural)]
pub enum DiscoveryError {
    /// Discovery is running already.
    AlreadyStarted,
    /// There is no socket.
    NotStarted,
    /// The socket could not be opened.
    Setup(SetupStep),
    /// A datagram could not be made or read.
    Codec(CodecError),
}

/// Why a message is passed over.
#[derive(Clone, Copy, Debug, PartialEq, Eq, Structural)]
pub enum IgnoreReason {
    /// The node sent it itself.
    OwnMessage,
    /// The sender is in another network.
    OtherNetwork,
    /// The sender's network has another secret.
    SecretMismatch,
    /// The sender gave no address that could be read.
    NoListeners,
}

/// What came of a message.
#[derive(Debug)]
pub enum MessageOutcome {
    /// It was passed over.
    Ignored(IgnoreReason),
    /// Its sender was filed as a peer.
    Accepted(Acceptance),
}

/// What came of a message whose sender was filed as a peer.
#[derive(Debug)]
pub struct Acceptance {
    pub peer: DiscoveredPeer,
    /// The peer was not known.
    pub is_new: bool,
    /// The peer is to be handed on.
    pub notify: bool,
    /// The sender asked for a response.
    pub respond: bool,
}

/// What happens to the discovery loop.
#[derive(Debug)]
pub enum LoopEvent {
    /// The loop begins. `timestamp` is in seconds since the Unix epoch.
    Started { timestamp: u64 },
    /// The loop was told to stop.
    Shutdown,
    /// It is time to announce the node.
    Tick { timestamp: u64 },
    /// The announcement was sent, or failed to be. `now` is in nanoseconds of a
    /// monotonic clock.
    AnnouncementDone { now: u128 },
    /// A datagram came in.
    Datagram { bytes: Vec<u8>, timestamp: u64, now: u128 },
    /// Receiving failed.
    ReceiveFailed,
}

/// How far the discovery loop has come, which tells what it waits for.
#[derive(Clone, Copy, Debug, PartialEq, Eq, Structural)]
pub enum LoopState {
    /// The loop has not begun.
    Starting,
    /// Anything may happen that comes from outside.
    Waiting,
    /// The node is being announced.
    Announcing,
    /// The loop is over.
    Stopped,
}

/// What the discovery loop does about an event.
#[derive(Debug)]
pub struct LoopStep {
    /// How far the loop has come.
    pub next: LoopState,
    /// Send this to the multicast group.
    pub send: Option<Vec<u8>>,
    /// Hand this peer on.
    pub notify: Option<DiscoveredPeer>,
    /// The event could not be made sense of.
    pub error: Option<DiscoveryError>,
    /// A message came in and was passed over, for this reason.
    pub ignored: Option<IgnoreReason>,
}

/// The discovery of one node: what it knows of itself, and whom it has found.
pub struct MulticastDiscoveryConnector {
    global_ctx: GlobalCtx,
    peer_manager: PeerManagerRef,
    session: Session,
    discovered_peers: PeerTable,
}

/// The mathematical value of a [`MulticastDiscoveryConnector`].
pub struct ConnectorView {
    pub ctx: CtxView,
    pub peer_manager: PeerManagerRef,
    pub session: Session,
    pub peers: Map<PeerId, PeerView>,
}

impl View for MulticastDiscoveryConnector {
    type V = ConnectorView;

    closed spec fn view(&self) -> ConnectorView {
        ConnectorView {
            ctx: self.global_ctx@,
            peer_manager: self.peer_manager,
            session: self.session,
            peers: self.discovered_peers@,
        }
    }
}

/// Whether two networks are not known to have different secrets. A node
/// without a secret is not held against one that has one.
pub open spec fn secrets_agree(a: Option<Seq<u8>>, b: Option<Seq<u8>>) -> bool {
    match (a, b) {
        (Some(x), Some(y)) => x == y,
        _ => true,
    }
}

/// What a node has against a message, before it looks at the addresses.
pub open spec fn objection(ctx: CtxView, m: MessageView) -> Option<IgnoreReason> {
    if m.instance_id == ctx.id {
        Some(IgnoreReason::OwnMessage)
    } else if m.network_name != ctx.network_name {
        Some(IgnoreReason::OtherNetwork)
    } else if !secrets_agree(ctx.network_secret_digest, m.network_secret_digest) {
        Some(IgnoreReason::SecretMismatch)
    } else {
        None
    }
}

/// What a node has against a message that gives the addresses `urls`.
pub open spec fn verdict(ctx: CtxView, m: MessageView, urls: Seq<UrlView>) -> Option<IgnoreReason> {
    match objection(ctx, m) {
        Some(reason) => Some(reason),
        None => if urls.len() == 0 {
            Some(IgnoreReason::NoListeners)
        } else {
            None
        },
    }
}

/// The sender of a message that gives the addresses `urls`.
pub open spec fn peer_of(m: MessageView, urls: Seq<UrlView>, now: u128) -> PeerView {
    PeerView {
        peer_id: m.peer_id,
        listeners: urls,
        hostname: m.hostname,
        instance_id: m.instance_id,
        last_seen: now,
    }
}

/// The message of a node with the given number.
pub open spec fn message_of(
    ctx: CtxView,
    message_type: MessageType,
    peer_id: PeerId,
    timestamp: u64,
) -> MessageView {
    MessageView {
        message_type,
        peer_id,
        network_name: ctx.network_name,
        network_secret_digest: ctx.network_secret_digest,
        listeners: connectable(
            ctx.running_listeners,
            ctx.interface_ipv4s,
            ctx.interface_ipv6s,
        ),
        hostname: ctx.hostname,
        instance_id: ctx.id,
        version: ctx.version,
        timestamp,
    }
}

/// Whether a node may give itself the number `id`: the one its manager knows,
/// and any where there is no manager to ask.
pub open spec fn may_be_id(manager: PeerManagerRef, id: PeerId) -> bool {
    match manager {
        PeerManagerRef::Alive(known) => id == known,
        _ => true,
    }
}

impl ConnectorView {
    /// Each peer is filed under its own number, has an address and is not the node
    /// itself, and a session holds everything or nothing.
    pub open spec fn wf(self) -> bool {
        &&& self.peers.dom().finite()
        &&& forall|k: PeerId| #[trigger]
            self.peers.contains_key(k) ==> self.peers[k].peer_id == k
            && self.peers[k].listeners.len() > 0 && self.peers[k].instance_id != self.ctx.id
        &&& self.session == Session::stopped() || self.session == Session::running()
    }

    /// The connector after the sender of a message was filed.
    pub open spec fn recorded(self, p: PeerView) -> ConnectorView {
        ConnectorView { peers: self.peers.insert(p.peer_id, p), ..self }
    }

    /// The connector in another session.
    pub open spec fn in_session(self, session: Session) -> ConnectorView {
        ConnectorView { session, ..self }
    }

    /// Whether `bytes` are a message of this node of the given type.
    pub open spec fn says(self, message_type: MessageType, timestamp: u64, bytes: Seq<u8>) -> bool {
        exists|id: PeerId|
            may_be_id(self.peer_manager, id) && bytes == (#[trigger] message_of(
                self.ctx,
                message_type,
                id,
                timestamp,
            )).image()
    }
}

/// Whether a message that gives the addresses `urls` was dealt with: it is
/// passed over and nothing changes where the node has something against it, and
/// otherwise its sender is filed, handed on where there is a channel for it, and
/// answered where it asked.
pub open spec fn dealt_with(
    before: ConnectorView,
    after: ConnectorView,
    session: Session,
    m: MessageView,
    urls: Seq<UrlView>,
    now: u128,
    r: MessageOutcome,
) -> bool {
    match verdict(before.ctx, m, urls) {
        Some(reason) => after == before && r == MessageOutcome::Ignored(reason),
        None => {
            &&& after == before.recorded(peer_of(m, urls, now))
            &&& r matches MessageOutcome::Accepted(a)
            &&& a.peer@ == peer_of(m, urls, now)
            &&& a.is_new == !before.peers.contains_key(m.peer_id)
            &&& a.notify == session.peer_tx
            &&& a.respond == (m.message_type == MessageType::Query)
        },
    }
}

/// Whether an event is one that the loop waits for: it begins once, an
/// announcement is followed through before anything else, and nothing happens
/// after the end.
pub open spec fn loop_expects(state: LoopState, event: LoopEvent) -> bool {
    match state {
        LoopState::Starting => event is Started,
        LoopState::Waiting => event is Shutdown || event is Tick || event is Datagram
            || event is ReceiveFailed,
        LoopState::Announcing => event is AnnouncementDone,
        LoopState::Stopped => false,
    }
}

/// How far an event takes the loop.
pub open spec fn loop_next(event: LoopEvent) -> LoopState {
    match event {
        LoopEvent::Tick { .. } => LoopState::Announcing,
        LoopEvent::Shutdown => LoopState::Stopped,
        _ => LoopState::Waiting,
    }
}

/// Whether a step does nothing but go on.
pub open spec fn is_idle(step: LoopStep) -> bool {
    step.send is None && step.notify is None && step.error is None && step.ignored is None
}

/// Whether a step only passes a message over.
pub open spec fn passes_over(step: LoopStep, reason: IgnoreReason) -> bool {
    &&& step.send is None && step.notify is None && step.error is None
    &&& step.ignored == Some(reason)
}

/// Whether a step only sends a message of the node.
pub open spec fn only_sends(
    step: LoopStep,
    node: ConnectorView,
    message_type: MessageType,
    timestamp: u64,
) -> bool {
    &&& step.notify is None
    &&& step.error is None
    &&& step.ignored is None
    &&& step.send matches Some(bytes) && node.says(message_type, timestamp, bytes@)
}

/// Whether a loop that holds `session` does about an event what it should.
pub open spec fn loop_does(
    before: ConnectorView,
    after: ConnectorView,
    session: Session,
    event: LoopEvent,
    step: LoopStep,
) -> bool {
    &&& step.next == loop_next(event)
    &&& match event {
        LoopEvent::Started { timestamp } => after == before && only_sends(
            step,
            before,
            MessageType::Query,
            timestamp,
        ),
        LoopEvent::Shutdown => after == before && is_idle(step),
        LoopEvent::Tick { timestamp } => after == before && only_sends(
            step,
            before,
            MessageType::Announcement,
            timestamp,
        ),
        LoopEvent::AnnouncementDone { now } => {
            &&& after == (ConnectorView { peers: fresh_peers(before.peers, now), ..before })
            &&& is_idle(step)
        },
        LoopEvent::Datagram { bytes, timestamp, now } => match decoding(bytes@) {
            None => {
                &&& after == before
                &&& step.send is None && step.notify is None && step.ignored is None
                &&& step.error == Some(DiscoveryError::Codec(CodecError::Deserialize))
            },
            Some(m) => loop_hears(before, after, session, m, timestamp, now, step),
        },
        LoopEvent::ReceiveFailed => after == before && is_idle(step),
    }
}

/// Whether a loop that holds `session` does about a message what it should.
pub open spec fn loop_hears(
    before: ConnectorView,
    after: ConnectorView,
    session: Session,
    m: MessageView,
    timestamp: u64,
    now: u128,
    step: LoopStep,
) -> bool {
    let urls = parsed_urls(m.listeners);
    match verdict(before.ctx, m, urls) {
        Some(reason) => after == before && passes_over(step, reason),
        None => {
            &&& after == before.recorded(peer_of(m, urls, now))
            &&& step.error is None && step.ignored is None
            &&& match step.notify {
                Some(p) => session.peer_tx && p@ == peer_of(m, urls, now),
                None => !session.peer_tx,
            }
            &&& match step.send {
                Some(bytes) => m.message_type == MessageType::Query && before.says(
                    MessageType::Response,
                    timestamp,
                    bytes@,
                ),
                None => m.message_type != MessageType::Query,
            }
        },
    }
}

/// Whether a datagram was received as it should be: a message is dealt with, and
/// what is no message changes nothing.
pub open spec fn received(
    before: ConnectorView,
    after: ConnectorView,
    session: Session,
    bytes: Seq<u8>,
    now: u128,
    r: Result<MessageOutcome, DiscoveryError>,
) -> bool {
    match decoding(bytes) {
        Some(m) => r matches Ok(outcome) && dealt_with(
            before,
            after,
            session,
            m,
            parsed_urls(m.listeners),
            now,
            outcome,
        ),
        None => after == before && r == Err::<MessageOutcome, DiscoveryError>(
            DiscoveryError::Codec(CodecError::Deserialize),
        ),
    }
}

/// Whether discovery was started as it should be, given how opening the socket
/// went: only where it does not run, and only with a socket.
pub open spec fn started(
    before: ConnectorView,
    after: ConnectorView,
    opened: Result<(), SetupStep>,
    r: Result<Session, DiscoveryError>,
) -> bool {
    if before.session.socket {
        &&& after == before
        &&& r == Err::<Session, DiscoveryError>(DiscoveryError::AlreadyStarted)
    } else {
        match opened {
            Ok(_) => {
                &&& after == before.in_session(Session::running())
                &&& r == Ok::<Session, DiscoveryError>(Session::running())
            },
            Err(step) => {
                &&& after == before
                &&& r == Err::<Session, DiscoveryError>(DiscoveryError::Setup(step))
            },
        }
    }
}

/// What is said of an error. Of a missing socket nothing is said.
pub open spec fn error_text(e: DiscoveryError) -> Option<Seq<char>> {
    match e {
        DiscoveryError::AlreadyStarted => Some("Discovery already started"@),
        DiscoveryError::NotStarted => None,
        DiscoveryError::Setup(step) => Some(failure_text_spec(step)),
        DiscoveryError::Codec(CodecError::Serialize) => Some(
            "Failed to serialize discovery message"@,
        ),
        DiscoveryError::Codec(CodecError::Deserialize) => Some(
            "Failed to deserialize discovery message"@,
        ),
    }
}

/// The URL that stands for discovery itself.
pub open spec fn remote_url_spec() -> Seq<char> {
    "multicast://"@ + MULTICAST_ADDR@ + ":"@ + decimal(MULTICAST_PORT as nat)
}

/// Calls `rand::random`. Nothing is claimed of the number that comes back.
#[verifier::external_body]
fn random_peer_id() -> (r: PeerId) {
    rand::random()
}

/// Whether two digests are equal.
pub fn same_digest(a: &[u8; 32], b: &[u8; 32]) -> (r: bool)
    ensures
        r == (a@ == b@),
{
    let mut i: usize = 0;
    while i < 32
        invariant
            i <= 32,
            forall|j: int| 0 <= j < i ==> a@[j] == b@[j],
        decreases 32 - i,
    {
        if a[i] != b[i] {
            assert(a@[i as int] != b@[i as int]);
            return false;
        }
        i = i + 1;
    }
    assert(a@ =~= b@);
    true
}

impl LoopState {
    /// Whether an event is one that the loop waits for.
    pub fn awaits(self, event: &LoopEvent) -> (r: bool)
        ensures
            r == loop_expects(self, *event),
    {
        match (self, event) {
            (LoopState::Starting, LoopEvent::Started { .. }) => true,
            (LoopState::Waiting, LoopEvent::Shutdown) => true,
            (LoopState::Waiting, LoopEvent::Tick { .. }) => true,
            (LoopState::Waiting, LoopEvent::Datagram { .. }) => true,
            (LoopState::Waiting, LoopEvent::ReceiveFailed) => true,
            (LoopState::Announcing, LoopEvent::AnnouncementDone { .. }) => true,
            _ => false,
        }
    }
}

impl DiscoveryError {
    /// What is said of the error, if anything.
    pub fn text(self) -> (r: Option<&'static str>)
        ensures
            match r {
                Some(t) => error_text(self) == Some(t@),
                None => error_text(self) is None,
            },
    {
        match self {
            DiscoveryError::AlreadyStarted => Some("Discovery already started"),
            DiscoveryError::NotStarted => None,
            DiscoveryError::Setup(step) => Some(failure_text(step)),
            DiscoveryError::Codec(CodecError::Serialize) => Some(
                "Failed to serialize discovery message",
            ),
            DiscoveryError::Codec(CodecError::Deserialize) => Some(
                "Failed to deserialize discovery message",
            ),
        }
    }
}

impl MulticastDiscoveryConnector {
    /// What every operation keeps.
    pub open spec fn wf(&self) -> bool {
        self@.wf()
    }

    /// Discovery for a node without a manager of its peers.
    pub fn new(global_ctx: GlobalCtx) -> (r: MulticastDiscoveryConnector)
        ensures
            r.wf(),
            r@ == (ConnectorView {
                ctx: global_ctx@,
                peer_manager: PeerManagerRef::Absent,
                session: Session::stopped(),
                peers: Map::empty(),
            }),
    {
        MulticastDiscoveryConnector {
            global_ctx,
            peer_manager: PeerManagerRef::Absent,
            session: Session { socket: false, shutdown_tx: false, peer_tx: false },
            discovered_peers: PeerTable::new(),
        }
    }

    /// Discovery for a node whose manager of its peers is known.
    pub fn new_with_peer_manager(global_ctx: GlobalCtx, peer_manager: PeerManagerRef) -> (r:
        MulticastDiscoveryConnector)
        ensures
            r.wf(),
            r@ == (ConnectorView {
                ctx: global_ctx@,
                peer_manager,
                session: Session::stopped(),
                peers: Map::empty(),
            }),
    {
        MulticastDiscoveryConnector {
            global_ctx,
            peer_manager,
            session: Session { socket: false, shutdown_tx: false, peer_tx: false },
            discovered_peers: PeerTable::new(),
        }
    }

    /// Whether `global_ctx` describes the instance that this discovery is for.
    pub fn is_same_instance(&self, global_ctx: &GlobalCtx) -> (r: bool)
        ensures
            r == (global_ctx@.id == self@.ctx.id),
    {
        global_ctx.id == self.global_ctx.id
    }

    /// Takes note of how the node and its surroundings are now. It is the same
    /// instance still.
    pub fn refresh(&mut self, global_ctx: GlobalCtx, peer_manager: PeerManagerRef)
        requires
            old(self).wf(),
            global_ctx@.id == old(self)@.ctx.id,
        ensures
            final(self).wf(),
            final(self)@ == (ConnectorView { ctx: global_ctx@, peer_manager, ..old(self)@ }),
    {
        self.global_ctx = global_ctx;
        self.peer_manager = peer_manager;
    }

    /// What the discovery holds on to.
    pub fn session(&self) -> (r: Session)
        ensures
            r == self@.session,
    {
        self.session
    }

    /// Takes up a session. Several handles may share a discovery: they know the
    /// same peers, and each holds a session of its own.
    pub fn switch_session(&mut self, session: Session)
        requires
            old(self).wf(),
            session == Session::stopped() || session == Session::running(),
        ensures
            final(self).wf(),
            final(self)@ == old(self)@.in_session(session),
    {
        self.session = session;
    }

    /// The addresses under which listeners are announced.
    pub fn create_connectable_listeners(&self, bind_listeners: &Vec<ListenerUrl>) -> (r: Vec<
        String,
    >)
        ensures
            texts(r@) == connectable(
                url_views(bind_listeners@),
                self@.ctx.interface_ipv4s,
                self@.ctx.interface_ipv6s,
            ),
    {
        connectable_listeners(
            bind_listeners,
            &self.global_ctx.interface_ipv4s,
            &self.global_ctx.interface_ipv6s,
        )
    }

    /// The node's number: the one that the manager of its peers knows, or one
    /// made up on the spot.
    pub fn local_peer_id(&self) -> (r: PeerId)
        ensures
            may_be_id(self@.peer_manager, r),
    {
        match self.peer_manager {
            PeerManagerRef::Alive(id) => id,
            PeerManagerRef::Stale => random_peer_id(),
            PeerManagerRef::Absent => random_peer_id(),
        }
    }

    /// A message of this node under the given number.
    pub fn discovery_message_from(
        &self,
        message_type: MessageType,
        peer_id: PeerId,
        timestamp: u64,
    ) -> (r: DiscoveryMessage)
        ensures
            r@ == message_of(self@.ctx, message_type, peer_id, timestamp),
    {
        let listeners = self.create_connectable_listeners(&self.global_ctx.running_listeners);
        DiscoveryMessage {
            message_type,
            peer_id,
            network_name: self.global_ctx.network_identity.network_name.clone(),
            network_secret_digest: self.global_ctx.network_identity.network_secret_digest,
            listeners,
            hostname: self.global_ctx.hostname.clone(),
            instance_id: self.global_ctx.id.clone(),
            version: self.global_ctx.version.clone(),
            timestamp,
        }
    }

    /// A message of this node.
    pub fn create_discovery_message(&self, message_type: MessageType, timestamp: u64) -> (r:
        DiscoveryMessage)
        ensures
            may_be_id(self@.peer_manager, r.peer_id),
            r@ == message_of(self@.ctx, message_type, r.peer_id, timestamp),
    {
        let peer_id: PeerId = self.local_peer_id();
        self.discovery_message_from(message_type, peer_id, timestamp)
    }

    /// The datagram that carries a message, where the session has a socket to
    /// send it on.
    pub fn send_discovery_message(&self, session: Session, message: &DiscoveryMessage) -> (r: Result<
        Vec<u8>,
        DiscoveryError,
    >)
        ensures
            match r {
                Ok(bytes) => session.socket && bytes@ == message@.image(),
                Err(e) => !session.socket && e == DiscoveryError::NotStarted,
            },
    {
        if !session.socket {
            return Err(DiscoveryError::NotStarted);
        }
        match message.encode() {
            Ok(bytes) => Ok(bytes),
            Err(e) => Err(DiscoveryError::Codec(e)),
        }
    }

    /// What the node has against a message, before it looks at the addresses.
    pub fn screen_message(&self, message: &DiscoveryMessage) -> (r: Option<IgnoreReason>)
        ensures
            r == objection(self@.ctx, message@),
    {
        let ours = &self.global_ctx.network_identity;
        if message.instance_id == self.global_ctx.id {
            return Some(IgnoreReason::OwnMessage);
        }
        if message.network_name != ours.network_name {
            return Some(IgnoreReason::OtherNetwork);
        }
        match (&ours.network_secret_digest, &message.network_secret_digest) {
            (Some(a), Some(b)) => {
                if same_digest(a, b) {
                    None
                } else {
                    Some(IgnoreReason::SecretMismatch)
                }
            },
            _ => None,
        }
    }

    /// Deals with a message that the node has nothing against, apart from the
    /// addresses.
    fn file_sender(
        &mut self,
        session: Session,
        message: DiscoveryMessage,
        listeners: Vec<ListenerUrl>,
        now: u128,
    ) -> (r: MessageOutcome)
        requires
            old(self).wf(),
            objection(old(self)@.ctx, message@) is None,
        ensures
            final(self).wf(),
            dealt_with(
                old(self)@,
                final(self)@,
                session,
                message@,
                url_views(listeners@),
                now,
                r,
            ),
    {
        if listeners.len() == 0 {
            return MessageOutcome::Ignored(IgnoreReason::NoListeners);
        }
        let respond: bool = message.message_type == MessageType::Query;
        let peer = DiscoveredPeer {
            peer_id: message.peer_id,
            listeners,
            hostname: message.hostname,
            instance_id: message.instance_id,
            last_seen: now,
        };
        let filed = peer.clone();
        let is_new: bool = self.discovered_peers.record(filed);
        MessageOutcome::Accepted(Acceptance { peer, is_new, notify: session.peer_tx, respond })
    }

    /// Deals with a message whose addresses have been read as `listeners`.
    pub fn consider_message(
        &mut self,
        session: Session,
        message: DiscoveryMessage,
        listeners: Vec<ListenerUrl>,
        now: u128,
    ) -> (r: MessageOutcome)
        requires
            old(self).wf(),
        ensures
            final(self).wf(),
            dealt_with(
                old(self)@,
                final(self)@,
                session,
                message@,
                url_views(listeners@),
                now,
                r,
            ),
    {
        match self.screen_message(&message) {
            Some(reason) => {
                return MessageOutcome::Ignored(reason);
            },
            None => {},
        }
        self.file_sender(session, message, listeners, now)
    }

    /// Deals with a message that was received.
    pub fn handle_received_message(
        &mut self,
        session: Session,
        message: DiscoveryMessage,
        now: u128,
    ) -> (r: MessageOutcome)
        requires
            old(self).wf(),
        ensures
            final(self).wf(),
            dealt_with(
                old(self)@,
                final(self)@,
                session,
                message@,
                parsed_urls(message@.listeners),
                now,
                r,
            ),
    {
        match self.screen_message(&message) {
            Some(reason) => {
                return MessageOutcome::Ignored(reason);
            },
            None => {},
        }
        let listeners = parse_listeners(&message.listeners);
        self.file_sender(session, message, listeners, now)
    }

    /// Reads a datagram and deals with the message in it.
    pub fn receive_message(&mut self, session: Session, bytes: &[u8], now: u128) -> (r: Result<
        MessageOutcome,
        DiscoveryError,
    >)
        requires
            old(self).wf(),
        ensures
            final(self).wf(),
            received(old(self)@, final(self)@, session, bytes@, now, r),
    {
        match DiscoveryMessage::decode(bytes) {
            Ok(message) => Ok(self.handle_received_message(session, message, now)),
            Err(e) => Err(DiscoveryError::Codec(e)),
        }
    }

    /// Forgets the peers that were not heard of for too long.
    pub fn cleanup_stale_peers(&mut self, now: u128)
        requires
            old(self).wf(),
        ensures
            final(self).wf(),
            final(self)@ == (ConnectorView { peers: fresh_peers(old(self)@.peers, now), ..old(
                self,
            )@ }),
    {
        self.discovered_peers.remove_stale(now);
    }

    /// The datagram that carries a message of this node.
    fn own_datagram(&self, session: Session, message_type: MessageType, timestamp: u64) -> (r: Result<
        Vec<u8>,
        DiscoveryError,
    >)
        ensures
            match r {
                Ok(bytes) => session.socket && self@.says(message_type, timestamp, bytes@),
                Err(e) => !session.socket && e == DiscoveryError::NotStarted,
            },
    {
        let message = self.create_discovery_message(message_type, timestamp);
        self.send_discovery_message(session, &message)
    }

    /// Decides what the discovery loop does about an event that it waits for. The
    /// loop holds on to the session that it was started with.
    pub fn discovery_loop(&mut self, session: Session, state: LoopState, event: LoopEvent) -> (r:
        Result<LoopStep, DiscoveryError>)
        requires
            old(self).wf(),
            loop_expects(state, event),
        ensures
            final(self).wf(),
            match r {
                Ok(step) => session.socket && loop_does(
                    old(self)@,
                    final(self)@,
                    session,
                    event,
                    step,
                ),
                Err(e) => !session.socket && e == DiscoveryError::NotStarted && final(self)@ == old(
                    self,
                )@,
            },
    {
        if !session.socket {
            return Err(DiscoveryError::NotStarted);
        }
        match event {
            LoopEvent::Started { timestamp } => {
                let bytes = self.own_datagram(session, MessageType::Query, timestamp)?;
                Ok(LoopStep { next: LoopState::Waiting, send: Some(bytes), notify: None, error: None, ignored: None })
            },
            LoopEvent::Shutdown => Ok(
                LoopStep { next: LoopState::Stopped, send: None, notify: None, error: None, ignored: None },
            ),
            LoopEvent::Tick { timestamp } => {
                let bytes = self.own_datagram(session, MessageType::Announcement, timestamp)?;
                Ok(LoopStep { next: LoopState::Announcing, send: Some(bytes), notify: None, error: None, ignored: None })
            },
            LoopEvent::AnnouncementDone { now } => {
                self.cleanup_stale_peers(now);
                Ok(LoopStep { next: LoopState::Waiting, send: None, notify: None, error: None, ignored: None })
            },
            LoopEvent::Datagram { bytes, timestamp, now } => {
                match self.receive_message(session, bytes.as_slice(), now) {
                    Ok(MessageOutcome::Accepted(a)) => {
                        let send: Option<Vec<u8>> = if a.respond {
                            Some(self.own_datagram(session, MessageType::Response, timestamp)?)
                        } else {
                            None
                        };
                        let notify: Option<DiscoveredPeer> = if a.notify {
                            Some(a.peer)
                        } else {
                            None
                        };
                        Ok(LoopStep { next: LoopState::Waiting, send, notify, error: None, ignored: None })
                    },
                    Ok(MessageOutcome::Ignored(reason)) => Ok(
                        LoopStep { next: LoopState::Waiting, send: None, notify: None, error: None, ignored: Some(reason) },
                    ),
                    Err(e) => Ok(
                        LoopStep { next: LoopState::Waiting, send: None, notify: None, error: Some(e), ignored: None },
                    ),
                }
            },
            LoopEvent::ReceiveFailed => Ok(
                LoopStep { next: LoopState::Waiting, send: None, notify: None, error: None, ignored: None },
            ),
        }
    }

    /// Whether discovery can be started: it must not be running.
    pub fn check_startable(&self) -> (r: Result<(), DiscoveryError>)
        ensures
            match r {
                Ok(_) => !self@.session.socket,
                Err(e) => self@.session.socket && e == DiscoveryError::AlreadyStarted,
            },
    {
        if self.session.socket {
            Err(DiscoveryError::AlreadyStarted)
        } else {
            Ok(())
        }
    }

    /// Starts discovery, given how opening the socket went. The session that
    /// comes back is the one the discovery loop holds on to.
    pub fn start_discovery(&mut self, opened: Result<(), SetupStep>) -> (r: Result<
        Session,
        DiscoveryError,
    >)
        requires
            old(self).wf(),
        ensures
            final(self).wf(),
            started(old(self)@, final(self)@, opened, r),
    {
        if self.session.socket {
            return Err(DiscoveryError::AlreadyStarted);
        }
        match opened {
            Ok(_) => {
                let session = Session { socket: true, shutdown_tx: true, peer_tx: true };
                self.session = session;
                Ok(session)
            },
            Err(step) => Err(DiscoveryError::Setup(step)),
        }
    }

    /// Stops discovery. Returns whether the loop is to be told. The peers that
    /// were found stay known.
    pub fn stop_discovery(&mut self) -> (signal: bool)
        requires
            old(self).wf(),
        ensures
            final(self).wf(),
            final(self)@ == old(self)@.in_session(Session::stopped()),
            signal == old(self)@.session.shutdown_tx,
    {
        let signal: bool = self.session.shutdown_tx;
        self.session = Session { socket: false, shutdown_tx: false, peer_tx: false };
        signal
    }

    /// The peers that are known, in no particular order.
    pub fn list_discovered_peers(&self) -> (r: Vec<DiscoveredPeer>)
        requires
            self.wf(),
        ensures
            is_listing(peer_views(r@), self@.peers),
    {
        self.discovered_peers.list()
    }

    /// How many peers are known.
    pub fn peer_count(&self) -> (r: usize)
        ensures
            r == self@.peers.dom().len(),
    {
        self.discovered_peers.len()
    }

    /// The peer that was heard of last, if any is known.
    pub fn latest_peer(&self) -> (r: Option<DiscoveredPeer>)
        requires
            self.wf(),
        ensures
            match r {
                Some(p) => is_latest(p@, self@.peers),
                None => self@.peers == Map::<PeerId, PeerView>::empty(),
            },
    {
        self.discovered_peers.latest()
    }

    /// The URL that stands for discovery itself, as text.
    pub fn remote_url_text() -> (r: String)
        ensures
            r@ == remote_url_spec(),
    {
        let mut r: String = "multicast://".to_owned();
        r.append(MULTICAST_ADDR);
        r.append(":");
        let port = decimal_text(MULTICAST_PORT as u32);
        r.append(port.as_str());
        r
    }

    /// The URL that stands for discovery itself.
    pub fn remote_url(&self) -> (r: Option<ListenerUrl>)
        ensures
            opt_url(r) == parsed_url(remote_url_spec()),
    {
        let text = Self::remote_url_text();
        ListenerUrl::parse(text.as_str())
    }
}

} // verus!
