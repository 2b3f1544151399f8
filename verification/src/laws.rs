//! What holds of the protocol as a whole.

use vstd::prelude::*;

use crate::connectable::connectable;
use crate::context::CtxView;
use crate::listener::{parsed_urls, UrlView};
use crate::message::{
    decoding, law_decode_inverts_encode, CodecError, MessageType, MessageView, PeerId,
};
use crate::multicast_discovery::{
    dealt_with, error_text, loop_does, loop_expects, loop_hears, loop_next, may_be_id, message_of,
    objection, passes_over, peer_of, received, remote_url_spec, secrets_agree, started, verdict,
    ConnectorView, DiscoveryError, IgnoreReason, LoopEvent, LoopState, LoopStep, MessageOutcome,
    PeerManagerRef, Session, DATAGRAM_CAPACITY, DISCOVERY_INTERVAL_SECS, QUERY_TIMEOUT_SECS,
};
use crate::peers::{fresh_peers, is_fresh, is_listing, PeerView};
use crate::socket_setup::{failure_text_spec, SetupStep, MULTICAST_ADDR, MULTICAST_PORT};
use crate::text::decimal;

verus! {

/// Law: a node never takes itself for a peer: every message made by the same
/// instance is passed over, whatever it says and however its addresses read. No
/// peer is filed, and in the loop none is handed on or answered, a query no less
/// than the rest.
pub proof fn law_own_message_ignored(
    sender: CtxView,
    message_type: MessageType,
    id: PeerId,
    said_at: u64,
    urls: Seq<UrlView>,
    before: ConnectorView,
    after: ConnectorView,
    session: Session,
    now: u128,
    outcome: MessageOutcome,
    loop_after: ConnectorView,
    timestamp: u64,
    step: LoopStep,
)
    requires
        sender.id == before.ctx.id,
        dealt_with(
            before,
            after,
            session,
            message_of(sender, message_type, id, said_at),
            urls,
            now,
            outcome,
        ),
        loop_hears(
            before,
            loop_after,
            session,
            message_of(sender, message_type, id, said_at),
            timestamp,
            now,
            step,
        ),
    ensures
        after == before,
        outcome == MessageOutcome::Ignored(IgnoreReason::OwnMessage),
        loop_after == before,
        passes_over(step, IgnoreReason::OwnMessage),
{
}

/// Law: a node hears another exactly where they are different instances, their
/// networks have the same name, and they do not have different secrets. So they
/// hear each other, or neither hears the other.
pub proof fn law_hearing_is_mutual(
    a: CtxView,
    b: CtxView,
    message_type: MessageType,
    id_a: PeerId,
    id_b: PeerId,
    timestamp: u64,
)
    ensures
        objection(a, message_of(b, message_type, id_b, timestamp)) is None <==> (a.id != b.id
            && a.network_name == b.network_name && secrets_agree(
            a.network_secret_digest,
            b.network_secret_digest,
        )),
        objection(a, message_of(b, message_type, id_b, timestamp)) is None <==> objection(
            b,
            message_of(a, message_type, id_a, timestamp),
        ) is None,
{
}

/// Law: what a node hears is what another said: a datagram with the bytes of a
/// node's message is dealt with as that message, whatever bytes follow.
pub proof fn law_heard_as_said(
    sender: CtxView,
    message_type: MessageType,
    id: PeerId,
    said_at: u64,
    trailing: Seq<u8>,
    before: ConnectorView,
    after: ConnectorView,
    session: Session,
    event: LoopEvent,
    step: LoopStep,
)
    requires
        sender.network_secret_digest matches Some(d) ==> d.len() == 32,
        event is Datagram,
        event->Datagram_bytes@ == message_of(sender, message_type, id, said_at).image() + trailing,
        event->Datagram_bytes@.len() <= u64::MAX,
        loop_does(before, after, session, event, step),
    ensures
        loop_hears(
            before,
            after,
            session,
            message_of(sender, message_type, id, said_at),
            event->Datagram_timestamp,
            event->Datagram_now,
            step,
        ),
{
    law_decode_inverts_encode(message_of(sender, message_type, id, said_at), trailing);
}

/// The addresses that a node announces.
pub open spec fn announced(ctx: CtxView) -> Seq<Seq<char>> {
    connectable(ctx.running_listeners, ctx.interface_ipv4s, ctx.interface_ipv6s)
}

/// Law: a node that hears another and can read one of its addresses knows it
/// from then on, under the number it gave and at the addresses it announced,
/// until its time to live has passed.
pub proof fn law_announced_node_is_found(
    sender: CtxView,
    message_type: MessageType,
    id: PeerId,
    said_at: u64,
    before: ConnectorView,
    after: ConnectorView,
    session: Session,
    event: LoopEvent,
    step: LoopStep,
    later: u128,
)
    requires
        sender.network_secret_digest matches Some(d) ==> d.len() == 32,
        event is Datagram,
        event->Datagram_bytes@ == message_of(sender, message_type, id, said_at).image(),
        event->Datagram_bytes@.len() <= u64::MAX,
        loop_does(before, after, session, event, step),
        objection(before.ctx, message_of(sender, message_type, id, said_at)) is None,
        parsed_urls(announced(sender)).len() > 0,
        is_fresh(event->Datagram_now, later),
    ensures
        fresh_peers(after.peers, later).contains_key(id),
        fresh_peers(after.peers, later)[id] == (PeerView {
            peer_id: id,
            listeners: parsed_urls(announced(sender)),
            hostname: sender.hostname,
            instance_id: sender.id,
            last_seen: event->Datagram_now,
        }),
{
    let m = message_of(sender, message_type, id, said_at);
    assert(m.image() + Seq::<u8>::empty() =~= m.image());
    law_heard_as_said(
        sender,
        message_type,
        id,
        said_at,
        Seq::empty(),
        before,
        after,
        session,
        event,
        step,
    );
}

/// Law: a query introduces two nodes to each other. Where a node hears the query
/// of another, its answer is sent, and when the answer is heard each knows the
/// other under the number that it gave, provided each can read one of the other's
/// addresses.
pub proof fn law_query_introduces_both(
    asker: ConnectorView,
    asker_id: PeerId,
    asked_at: u64,
    host: ConnectorView,
    host_after: ConnectorView,
    host_session: Session,
    query: LoopEvent,
    answer_step: LoopStep,
    asker_after: ConnectorView,
    asker_session: Session,
    answer: LoopEvent,
    last_step: LoopStep,
)
    requires
        asker.ctx.network_secret_digest matches Some(d) ==> d.len() == 32,
        host.ctx.network_secret_digest matches Some(d) ==> d.len() == 32,
        asker.ctx.id != host.ctx.id,
        asker.ctx.network_name == host.ctx.network_name,
        secrets_agree(asker.ctx.network_secret_digest, host.ctx.network_secret_digest),
        parsed_urls(announced(asker.ctx)).len() > 0,
        parsed_urls(announced(host.ctx)).len() > 0,
        query is Datagram,
        query->Datagram_bytes@ == message_of(asker.ctx, MessageType::Query, asker_id, asked_at).image(),
        query->Datagram_bytes@.len() <= u64::MAX,
        loop_does(host, host_after, host_session, query, answer_step),
        answer is Datagram,
        answer_step.send matches Some(bytes) ==> answer->Datagram_bytes@ == bytes@,
        answer->Datagram_bytes@.len() <= u64::MAX,
        loop_does(asker, asker_after, asker_session, answer, last_step),
    ensures
        answer_step.send is Some,
        host_after.peers.contains_key(asker_id),
        host_after.peers[asker_id].instance_id == asker.ctx.id,
        host_after.peers[asker_id].listeners == parsed_urls(announced(asker.ctx)),
        exists|host_id: PeerId|
            may_be_id(host.peer_manager, host_id) && (#[trigger] asker_after.peers.contains_key(
                host_id,
            )) && asker_after.peers[host_id].instance_id == host.ctx.id
                && asker_after.peers[host_id].listeners == parsed_urls(announced(host.ctx)),
        last_step.send is None,
{
    let q = message_of(asker.ctx, MessageType::Query, asker_id, asked_at);
    assert(q.image() + Seq::<u8>::empty() =~= q.image());
    law_heard_as_said(
        asker.ctx,
        MessageType::Query,
        asker_id,
        asked_at,
        Seq::empty(),
        host,
        host_after,
        host_session,
        query,
        answer_step,
    );
    let said_at = query->Datagram_timestamp;
    let bytes = answer_step.send->0@;
    assert(host.says(MessageType::Response, said_at, bytes));
    let host_id = choose|id: PeerId|
        may_be_id(host.peer_manager, id) && bytes == (#[trigger] message_of(
            host.ctx,
            MessageType::Response,
            id,
            said_at,
        )).image();
    let r = message_of(host.ctx, MessageType::Response, host_id, said_at);
    assert(r.image() + Seq::<u8>::empty() =~= r.image());
    law_heard_as_said(
        host.ctx,
        MessageType::Response,
        host_id,
        said_at,
        Seq::empty(),
        asker,
        asker_after,
        asker_session,
        answer,
        last_step,
    );
    assert(asker_after.peers.contains_key(host_id));
}

/// Law: only queries are answered, so answers are never answered and a
/// conversation ends.
pub proof fn law_only_queries_answered(
    before: ConnectorView,
    after: ConnectorView,
    session: Session,
    event: LoopEvent,
    step: LoopStep,
)
    requires
        event is Datagram,
        loop_does(before, after, session, event, step),
    ensures
        step.send is Some ==> (decoding(event->Datagram_bytes@) matches Some(m) && m.message_type
            == MessageType::Query),
{
}

/// Law: a datagram from nobody whom the node hears, or that is no message,
/// leaves everything as it is: no peer is filed, handed on or answered.
pub proof fn law_stranger_changes_nothing(
    before: ConnectorView,
    after: ConnectorView,
    session: Session,
    event: LoopEvent,
    step: LoopStep,
)
    requires
        event is Datagram,
        loop_does(before, after, session, event, step),
        decoding(event->Datagram_bytes@) matches Some(m) ==> objection(before.ctx, m) is Some,
    ensures
        after == before,
        step.send is None,
        step.notify is None,
        step.next == LoopState::Waiting,
{
}

/// Law: an event changes at most one peer's entry, except that old entries are
/// dropped after an announcement. What the node knows of itself, and its
/// session, no event changes.
pub proof fn law_loop_frame(
    before: ConnectorView,
    after: ConnectorView,
    session: Session,
    event: LoopEvent,
    step: LoopStep,
)
    requires
        loop_does(before, after, session, event, step),
    ensures
        after.ctx == before.ctx,
        after.peer_manager == before.peer_manager,
        after.session == before.session,
        event is Datagram ==> forall|k: PeerId|
            #![trigger after.peers.contains_key(k)]
            (decoding(event->Datagram_bytes@) matches Some(m) ==> k != m.peer_id) ==> (
            after.peers.contains_key(k) <==> before.peers.contains_key(k)) && (
            before.peers.contains_key(k) ==> after.peers[k] == before.peers[k]),
        event is AnnouncementDone ==> forall|k: PeerId| #[trigger]
            after.peers.contains_key(k) ==> before.peers.contains_key(k) && after.peers[k]
                == before.peers[k],
        !(event is Datagram) && !(event is AnnouncementDone) ==> after == before,
{
}

/// Law: the loop ends when it is told to and at no other time. No datagram,
/// readable or not, and no failure to receive ends it.
pub proof fn law_loop_ends_when_told(
    before: ConnectorView,
    after: ConnectorView,
    session: Session,
    event: LoopEvent,
    step: LoopStep,
)
    requires
        loop_does(before, after, session, event, step),
    ensures
        step.next == LoopState::Stopped <==> event is Shutdown,
{
}

/// Law: the last word of a peer is the one that counts. A message of a peer that
/// is known already replaces all that was known of it: its entry holds what the
/// message says and when it was heard, there is one entry for the peer, and
/// there are as many peers as before.
pub proof fn law_last_word_counts(
    before: ConnectorView,
    after: ConnectorView,
    session: Session,
    m: MessageView,
    urls: Seq<UrlView>,
    now: u128,
    outcome: MessageOutcome,
    listing: Seq<PeerView>,
    i: int,
)
    requires
        dealt_with(before, after, session, m, urls, now, outcome),
        verdict(before.ctx, m, urls) is None,
        before.wf(),
        before.peers.contains_key(m.peer_id),
        is_listing(listing, after.peers),
        0 <= i < listing.len(),
        listing[i].peer_id == m.peer_id,
    ensures
        after.peers[m.peer_id] == peer_of(m, urls, now),
        after.peers.dom() == before.peers.dom(),
        listing.len() == before.peers.dom().len(),
        listing[i] == peer_of(m, urls, now),
        forall|j: int| 0 <= j < listing.len() && j != i ==> (#[trigger] listing[j]).peer_id
            != m.peer_id,
        outcome matches MessageOutcome::Accepted(a) && !a.is_new,
{
    assert(after.peers.dom() =~= before.peers.dom());
    assert forall|j: int| 0 <= j < listing.len() && j != i implies (#[trigger] listing[j]).peer_id
        != m.peer_id by {
        if j < i {
            assert(listing[j].peer_id != listing[i].peer_id);
        } else {
            assert(listing[i].peer_id != listing[j].peer_id);
        }
    }
}

/// Law: of two accepted messages of one peer, the first leaves no trace: what is
/// known after both is what is known after the second alone.
pub proof fn law_first_word_forgotten(
    before: ConnectorView,
    between: ConnectorView,
    after: ConnectorView,
    session: Session,
    first: MessageView,
    first_urls: Seq<UrlView>,
    first_now: u128,
    first_outcome: MessageOutcome,
    second: MessageView,
    second_urls: Seq<UrlView>,
    second_now: u128,
    second_outcome: MessageOutcome,
)
    requires
        first.peer_id == second.peer_id,
        dealt_with(before, between, session, first, first_urls, first_now, first_outcome),
        verdict(before.ctx, first, first_urls) is None,
        dealt_with(between, after, session, second, second_urls, second_now, second_outcome),
        verdict(between.ctx, second, second_urls) is None,
    ensures
        between.peers.contains_key(second.peer_id),
        after == before.recorded(peer_of(second, second_urls, second_now)),
{
    assert(after.peers =~= before.recorded(peer_of(second, second_urls, second_now)).peers);
}

/// Law: the sender's version and the time it gives make no difference to what is
/// done about a message.
pub proof fn law_version_and_time_do_not_count(
    before: ConnectorView,
    session: Session,
    a: MessageView,
    b: MessageView,
    urls: Seq<UrlView>,
    now: u128,
    after_a: ConnectorView,
    outcome_a: MessageOutcome,
    after_b: ConnectorView,
    outcome_b: MessageOutcome,
)
    requires
        b == (MessageView { version: b.version, timestamp: b.timestamp, ..a }),
        dealt_with(before, after_a, session, a, urls, now, outcome_a),
        dealt_with(before, after_b, session, b, urls, now, outcome_b),
    ensures
        after_a == after_b,
        match (outcome_a, outcome_b) {
            (MessageOutcome::Ignored(x), MessageOutcome::Ignored(y)) => x == y,
            (MessageOutcome::Accepted(x), MessageOutcome::Accepted(y)) => {
                &&& x.peer@ == y.peer@
                &&& x.is_new == y.is_new
                &&& x.notify == y.notify
                &&& x.respond == y.respond
            },
            _ => false,
        },
{
}

/// Law: a message that was sent and arrives whole is dealt with as the message
/// that was sent, in every field, whatever bytes follow it.
pub proof fn law_received_as_sent(
    m: MessageView,
    trailing: Seq<u8>,
    before: ConnectorView,
    after: ConnectorView,
    session: Session,
    now: u128,
    r: Result<MessageOutcome, DiscoveryError>,
)
    requires
        m.wf(),
        m.image().len() + trailing.len() <= u64::MAX,
        received(before, after, session, m.image() + trailing, now, r),
    ensures
        r matches Ok(outcome) && dealt_with(
            before,
            after,
            session,
            m,
            parsed_urls(m.listeners),
            now,
            outcome,
        ),
{
    law_decode_inverts_encode(m, trailing);
}

/// Law: a node whose manager of its peers is there gives the manager's number in
/// every message, so what it says twice is the same both times. Without a manager
/// it may give any number.
pub proof fn law_managed_node_keeps_its_number(
    node: ConnectorView,
    known: PeerId,
    message_type: MessageType,
    timestamp: u64,
    once: Seq<u8>,
    again: Seq<u8>,
    any: PeerId,
)
    requires
        node.says(message_type, timestamp, once),
        node.says(message_type, timestamp, again),
    ensures
        node.peer_manager == PeerManagerRef::Alive(known) ==> {
            &&& once == message_of(node.ctx, message_type, known, timestamp).image()
            &&& once == again
        },
        !(node.peer_manager is Alive) ==> node.says(
            message_type,
            timestamp,
            message_of(node.ctx, message_type, any, timestamp).image(),
        ),
{
}

/// The states that a loop goes through and the events it meets with, one state
/// more than events.
pub open spec fn is_loop_run(states: Seq<LoopState>, events: Seq<LoopEvent>) -> bool {
    &&& states.len() == events.len() + 1
    &&& states[0] == LoopState::Starting
    &&& forall|i: int|
        0 <= i < events.len() ==> loop_expects(states[i], #[trigger] events[i]) && states[i + 1]
            == loop_next(events[i])
}

/// Law: a loop begins with its query, and never begins again.
pub proof fn law_query_comes_first_and_once(
    states: Seq<LoopState>,
    events: Seq<LoopEvent>,
    i: int,
)
    requires
        is_loop_run(states, events),
        0 <= i < events.len(),
    ensures
        events[i] is Started <==> i == 0,
{
    if i > 0 {
        assert(states[i - 1 + 1] == loop_next(events[i - 1]));
    }
}

/// Law: right after each announcement the stale peers are forgotten, and at no
/// other time.
pub proof fn law_cleanup_follows_announcement(
    states: Seq<LoopState>,
    events: Seq<LoopEvent>,
    i: int,
)
    requires
        is_loop_run(states, events),
        0 <= i < events.len(),
    ensures
        events[i] is AnnouncementDone <==> i > 0 && events[i - 1] is Tick,
        events[i] is Tick && i + 1 < events.len() ==> events[i + 1] is AnnouncementDone,
{
    if i > 0 {
        assert(states[i - 1 + 1] == loop_next(events[i - 1]));
    }
    if i + 1 < events.len() {
        assert(loop_expects(states[i + 1], events[i + 1]));
    }
}

/// Law: nothing happens after a loop was told to stop.
pub proof fn law_shutdown_is_last(states: Seq<LoopState>, events: Seq<LoopEvent>, i: int)
    requires
        is_loop_run(states, events),
        0 <= i < events.len(),
        events[i] is Shutdown,
    ensures
        i + 1 == events.len(),
{
    if i + 1 < events.len() {
        assert(loop_expects(states[i + 1], events[i + 1]));
    }
}

/// Law: a node asks only when its loop begins: no other event makes it send a
/// query.
pub proof fn law_queries_only_at_start(
    before: ConnectorView,
    after: ConnectorView,
    session: Session,
    event: LoopEvent,
    step: LoopStep,
)
    requires
        loop_does(before, after, session, event, step),
        before.ctx.network_secret_digest matches Some(d) ==> d.len() == 32,
        step.send matches Some(bytes) ==> bytes@.len() <= u64::MAX,
    ensures
        step.send matches Some(bytes) ==> (decoding(bytes@) matches Some(m) && (m.message_type
            == MessageType::Query <==> event is Started)),
{
    if let Some(bytes) = step.send {
        let (message_type, timestamp) = match event {
            LoopEvent::Started { timestamp } => (MessageType::Query, timestamp),
            LoopEvent::Tick { timestamp } => (MessageType::Announcement, timestamp),
            LoopEvent::Datagram { timestamp, .. } => (MessageType::Response, timestamp),
            _ => arbitrary(),
        };
        assert(before.says(message_type, timestamp, bytes@));
        let id = choose|id: PeerId|
            may_be_id(before.peer_manager, id) && bytes@ == (#[trigger] message_of(
                before.ctx,
                message_type,
                id,
                timestamp,
            )).image();
        let m = message_of(before.ctx, message_type, id, timestamp);
        law_decode_inverts_encode(m, Seq::empty());
    }
}

/// Law: a node that announces itself as often as it should is not forgotten in
/// between, even if seven announcements in a row are lost.
pub proof fn law_announcing_node_stays_known(last_seen: u128, now: u128)
    requires
        now <= last_seen + 8 * DISCOVERY_INTERVAL_SECS * 1_000_000_000,
    ensures
        is_fresh(last_seen, now),
{
}

/// Law: a discovery that runs cannot be started again. Starting it says so and
/// changes nothing, however opening a socket would have gone.
pub proof fn law_started_once(
    first: ConnectorView,
    running: ConnectorView,
    opened: Result<(), SetupStep>,
    session: Session,
    later: ConnectorView,
    after: ConnectorView,
    opened_again: Result<(), SetupStep>,
    r: Result<Session, DiscoveryError>,
)
    requires
        started(first, running, opened, Ok(session)),
        later.session == running.session,
        started(later, after, opened_again, r),
    ensures
        after == later,
        r == Err::<Session, DiscoveryError>(DiscoveryError::AlreadyStarted),
        error_text(r->Err_0) == Some("Discovery already started"@),
{
}

/// Law: a discovery that does not run, because it is new, was stopped or could
/// not be started, is started exactly where a socket can be opened. Where it
/// cannot, the step that failed is named, nothing changes, and a later start
/// succeeds where a socket can be opened then.
pub proof fn law_start_follows_socket(
    before: ConnectorView,
    after: ConnectorView,
    opened: Result<(), SetupStep>,
    r: Result<Session, DiscoveryError>,
    retried: ConnectorView,
    again: Result<Session, DiscoveryError>,
)
    requires
        before.session == Session::stopped(),
        started(before, after, opened, r),
        r is Err ==> started(after, retried, Ok(()), again),
    ensures
        r is Err <==> opened is Err,
        opened matches Err(step) ==> r == Err::<Session, DiscoveryError>(
            DiscoveryError::Setup(step),
        ) && after == before && again == Ok::<Session, DiscoveryError>(Session::running()),
        opened is Ok ==> after == before.in_session(Session::running()) && r == Ok::<
            Session,
            DiscoveryError,
        >(Session::running()),
{
}

/// What can be done to a discovery, with what comes of it.
pub enum Operation {
    Refresh { ctx: CtxView, peer_manager: PeerManagerRef },
    Deal {
        session: Session,
        message: MessageView,
        urls: Seq<UrlView>,
        now: u128,
        outcome: MessageOutcome,
    },
    Receive {
        session: Session,
        bytes: Seq<u8>,
        now: u128,
        result: Result<MessageOutcome, DiscoveryError>,
    },
    Loop { session: Session, event: LoopEvent, step: LoopStep },
    CleanUp { now: u128 },
    Start { opened: Result<(), SetupStep>, begun: Result<Session, DiscoveryError> },
    SwitchSession { session: Session },
    Stop,
}

/// Whether an operation takes a discovery from one state to another.
pub open spec fn performs(before: ConnectorView, op: Operation, after: ConnectorView) -> bool {
    match op {
        Operation::Refresh { ctx, peer_manager } => {
            &&& ctx.id == before.ctx.id
            &&& after == (ConnectorView { ctx, peer_manager, ..before })
        },
        Operation::Deal { session, message, urls, now, outcome } => dealt_with(
            before,
            after,
            session,
            message,
            urls,
            now,
            outcome,
        ),
        Operation::Receive { session, bytes, now, result } => received(
            before,
            after,
            session,
            bytes,
            now,
            result,
        ),
        Operation::Loop { session, event, step } => loop_does(before, after, session, event, step),
        Operation::CleanUp { now } => after == (ConnectorView {
            peers: fresh_peers(before.peers, now),
            ..before
        }),
        Operation::Start { opened, begun } => started(before, after, opened, begun),
        Operation::SwitchSession { session } => {
            &&& session == Session::stopped() || session == Session::running()
            &&& after == before.in_session(session)
        },
        Operation::Stop => after == before.in_session(Session::stopped()),
    }
}

/// The states of a discovery from when it was made, one more than there were
/// operations.
pub open spec fn is_history(states: Seq<ConnectorView>, ops: Seq<Operation>) -> bool {
    &&& states.len() == ops.len() + 1
    &&& states[0].session == Session::stopped()
    &&& states[0].peers == Map::<PeerId, PeerView>::empty()
    &&& forall|i: int|
        0 <= i < ops.len() ==> performs(states[i], #[trigger] ops[i], states[i + 1])
}

/// Law: every operation keeps what holds of a discovery, and the node stays the
/// same instance.
pub proof fn law_operations_keep_wf(before: ConnectorView, op: Operation, after: ConnectorView)
    requires
        before.wf(),
        performs(before, op, after),
    ensures
        after.wf(),
        after.ctx.id == before.ctx.id,
{
    assert forall|now: u128| #[trigger] fresh_peers(before.peers, now).dom().finite() by {
        let kept = before.peers.dom().filter(|k: PeerId| is_fresh(before.peers[k].last_seen, now));
        assert(fresh_peers(before.peers, now).dom() =~= kept);
    }
}

/// Law: whatever was done to a discovery since it was made, each peer it knows is
/// listed once, no two have the same number, each has an address, and none is the
/// node itself. A new discovery lists nobody.
pub proof fn law_listing_after_any_history(
    states: Seq<ConnectorView>,
    ops: Seq<Operation>,
    n: int,
    listing: Seq<PeerView>,
)
    requires
        is_history(states, ops),
        0 <= n < states.len(),
        is_listing(listing, states[n].peers),
    ensures
        states[n].wf(),
        states[n].ctx.id == states[0].ctx.id,
        listing.len() == states[n].peers.dom().len(),
        forall|i: int, j: int|
            0 <= i < j < listing.len() ==> (#[trigger] listing[i]).peer_id != (
            #[trigger] listing[j]).peer_id,
        forall|i: int|
            0 <= i < listing.len() ==> (#[trigger] listing[i]).listeners.len() > 0
                && listing[i].instance_id != states[0].ctx.id,
        n == 0 ==> listing.len() == 0,
{
    lemma_history_wf(states, ops, n);
    assert forall|i: int| 0 <= i < listing.len() implies (#[trigger] listing[i]).listeners.len() > 0
        && listing[i].instance_id != states[0].ctx.id by {
        assert(states[n].peers.contains_key(listing[i].peer_id));
    }
}

proof fn lemma_history_wf(states: Seq<ConnectorView>, ops: Seq<Operation>, n: int)
    requires
        is_history(states, ops),
        0 <= n < states.len(),
    ensures
        states[n].wf(),
        states[n].ctx.id == states[0].ctx.id,
    decreases n,
{
    if n > 0 {
        lemma_history_wf(states, ops, n - 1);
        assert(performs(states[n - 1], ops[n - 1], states[n - 1 + 1]));
        law_operations_keep_wf(states[n - 1], ops[n - 1], states[n]);
    }
}

/// Law: stopping undoes starting. The peers that were found stay known, and
/// discovery can be started again.
pub proof fn law_stop_undoes_start(node: ConnectorView)
    requires
        node.session == Session::stopped(),
    ensures
        node.in_session(Session::running()).in_session(Session::stopped()) == node,
        !node.in_session(Session::running()).in_session(Session::stopped()).session.socket,
        node.in_session(Session::running()).peers == node.peers,
{
}

/// Law: a message is accepted exactly where it is of another instance, its
/// network has the same name, the secrets are equal if both are known, and an
/// address of its sender can be read. Otherwise the first of these that fails is
/// the reason given.
pub proof fn law_accepted_exactly_where(ctx: CtxView, m: MessageView, urls: Seq<UrlView>)
    ensures
        ({
            let own = m.instance_id == ctx.id;
            let elsewhere = m.network_name != ctx.network_name;
            let differ = ctx.network_secret_digest is Some && m.network_secret_digest is Some
                && ctx.network_secret_digest->0 != m.network_secret_digest->0;
            &&& verdict(ctx, m, urls) is None <==> !own && !elsewhere && !differ && urls.len() > 0
            &&& verdict(ctx, m, urls) == Some(IgnoreReason::OwnMessage) <==> own
            &&& verdict(ctx, m, urls) == Some(IgnoreReason::OtherNetwork) <==> !own && elsewhere
            &&& verdict(ctx, m, urls) == Some(IgnoreReason::SecretMismatch) <==> !own && !elsewhere
                && differ
            &&& verdict(ctx, m, urls) == Some(IgnoreReason::NoListeners) <==> !own && !elsewhere
                && !differ && urls.len() == 0
            &&& objection(ctx, m) is None <==> !own && !elsewhere && !differ
            &&& objection(ctx, m) is Some ==> objection(ctx, m) == verdict(ctx, m, urls)
            &&& secrets_agree(ctx.network_secret_digest, m.network_secret_digest) <==> !differ
        }),
{
}

/// Law: the sender of an accepted message is filed under its number as the
/// message describes it, at the addresses that were read and at the time it was
/// heard, and is given back just as it was filed. It is new where its number was
/// not known, is handed on where there is a channel, and is answered where it
/// asked. Nothing else changes. A message that is not accepted changes nothing.
pub proof fn law_sender_filed_as_described(
    before: ConnectorView,
    after: ConnectorView,
    session: Session,
    m: MessageView,
    urls: Seq<UrlView>,
    now: u128,
    outcome: MessageOutcome,
    k: PeerId,
)
    requires
        dealt_with(before, after, session, m, urls, now, outcome),
    ensures
        after.ctx == before.ctx,
        after.peer_manager == before.peer_manager,
        after.session == before.session,
        k != m.peer_id ==> (after.peers.contains_key(k) <==> before.peers.contains_key(k)),
        k != m.peer_id && before.peers.contains_key(k) ==> after.peers[k] == before.peers[k],
        verdict(before.ctx, m, urls) is Some ==> after == before && outcome
            == MessageOutcome::Ignored(verdict(before.ctx, m, urls)->0),
        verdict(before.ctx, m, urls) is None ==> {
            &&& after.peers.contains_key(m.peer_id)
            &&& after.peers[m.peer_id].peer_id == m.peer_id
            &&& after.peers[m.peer_id].listeners == urls
            &&& after.peers[m.peer_id].hostname == m.hostname
            &&& after.peers[m.peer_id].instance_id == m.instance_id
            &&& after.peers[m.peer_id].last_seen == now
            &&& outcome matches MessageOutcome::Accepted(a)
            &&& a.peer@ == after.peers[m.peer_id]
            &&& a.is_new <==> !before.peers.contains_key(m.peer_id)
            &&& a.notify <==> session.peer_tx
            &&& a.respond <==> m.message_type == MessageType::Query
        },
{
}

/// Law: the peer whose message the loop accepts is handed on wherever there is a
/// channel for it, and what is handed on is the very entry that was filed: its
/// number, all its addresses in order, its host, its instance and when it was
/// heard. It is answered exactly where it asked, and every other entry stays.
pub proof fn law_heard_peer_is_handed_on(
    before: ConnectorView,
    after: ConnectorView,
    session: Session,
    event: LoopEvent,
    step: LoopStep,
    m: MessageView,
    k: PeerId,
)
    requires
        loop_does(before, after, session, event, step),
        event is Datagram,
        decoding(event->Datagram_bytes@) == Some(m),
        verdict(before.ctx, m, parsed_urls(m.listeners)) is None,
    ensures
        session.peer_tx ==> (step.notify matches Some(p) && after.peers.contains_key(p.peer_id)
            && p@ == after.peers[m.peer_id]),
        !session.peer_tx ==> step.notify is None,
        after.peers.contains_key(m.peer_id),
        after.peers[m.peer_id].peer_id == m.peer_id,
        after.peers[m.peer_id].listeners == parsed_urls(m.listeners),
        after.peers[m.peer_id].hostname == m.hostname,
        after.peers[m.peer_id].instance_id == m.instance_id,
        after.peers[m.peer_id].last_seen == event->Datagram_now,
        step.send is Some <==> m.message_type == MessageType::Query,
        step.error is None,
        step.ignored is None,
        k != m.peer_id ==> (after.peers.contains_key(k) <==> before.peers.contains_key(k)),
        k != m.peer_id && before.peers.contains_key(k) ==> after.peers[k] == before.peers[k],
{
}

/// Law: a datagram that is no message, or whose message is not accepted, has no
/// effect but that the loop says why.
pub proof fn law_unheard_datagram_is_explained(
    before: ConnectorView,
    after: ConnectorView,
    session: Session,
    event: LoopEvent,
    step: LoopStep,
)
    requires
        loop_does(before, after, session, event, step),
        event is Datagram,
    ensures
        decoding(event->Datagram_bytes@) is None ==> {
            &&& after == before
            &&& step.send is None && step.notify is None && step.ignored is None
            &&& step.error == Some(DiscoveryError::Codec(CodecError::Deserialize))
        },
        decoding(event->Datagram_bytes@) matches Some(m) ==> (verdict(
            before.ctx,
            m,
            parsed_urls(m.listeners),
        ) matches Some(reason) ==> {
            &&& after == before
            &&& step.send is None && step.notify is None && step.error is None
            &&& step.ignored == Some(reason)
        }),
{
}

/// Law: a message of a node tells its network, its digest, the addresses it is
/// announced at, its host, instance and version, under the number and time given.
pub proof fn law_message_describes_node(
    ctx: CtxView,
    message_type: MessageType,
    id: PeerId,
    timestamp: u64,
)
    ensures
        ({
            let m = message_of(ctx, message_type, id, timestamp);
            &&& m.message_type == message_type
            &&& m.peer_id == id
            &&& m.network_name == ctx.network_name
            &&& m.network_secret_digest == ctx.network_secret_digest
            &&& m.listeners == connectable(
                ctx.running_listeners,
                ctx.interface_ipv4s,
                ctx.interface_ipv6s,
            )
            &&& m.hostname == ctx.hostname
            &&& m.instance_id == ctx.id
            &&& m.version == ctx.version
            &&& m.timestamp == timestamp
        }),
{
}

/// Law: a node has the number that its manager knows, and any without a manager.
/// Bytes are a message of the node exactly where they are one under such a
/// number.
pub proof fn law_own_words_under_own_number(
    node: ConnectorView,
    message_type: MessageType,
    timestamp: u64,
    bytes: Seq<u8>,
    id: PeerId,
)
    ensures
        may_be_id(node.peer_manager, id) <==> !(node.peer_manager is Alive) || node.peer_manager
            == PeerManagerRef::Alive(id),
        may_be_id(node.peer_manager, id) && bytes == message_of(
            node.ctx,
            message_type,
            id,
            timestamp,
        ).image() ==> node.says(message_type, timestamp, bytes),
        node.says(message_type, timestamp, bytes) ==> exists|known: PeerId|
            (!(node.peer_manager is Alive) || node.peer_manager == PeerManagerRef::Alive(known))
                && bytes == (#[trigger] message_of(
                node.ctx,
                message_type,
                known,
                timestamp,
            )).image(),
{
    if node.says(message_type, timestamp, bytes) {
        let known = choose|known: PeerId|
            may_be_id(node.peer_manager, known) && bytes == (#[trigger] message_of(
                node.ctx,
                message_type,
                known,
                timestamp,
            )).image();
        assert(bytes == message_of(node.ctx, message_type, known, timestamp).image());
    }
}

/// Law: when it begins, the loop sends a query, when it is time an announcement,
/// and to a query that it accepts a response. What it sends reads as a message of
/// the node made at the time of the event, and it sends nothing else.
pub proof fn law_loop_sends_own_words(
    before: ConnectorView,
    after: ConnectorView,
    session: Session,
    event: LoopEvent,
    step: LoopStep,
)
    requires
        loop_does(before, after, session, event, step),
        before.ctx.network_secret_digest matches Some(d) ==> d.len() == 32,
        step.send matches Some(bytes) ==> bytes@.len() <= u64::MAX,
    ensures
        event is Started || event is Tick ==> step.send is Some && after == before,
        event is Shutdown || event is AnnouncementDone || event is ReceiveFailed ==> step.send
            is None,
        !(event is Datagram) ==> step.notify is None && step.error is None && step.ignored is None,
        step.send matches Some(bytes) ==> {
            &&& decoding(bytes@) matches Some(m)
            &&& event is Started ==> m.message_type == MessageType::Query && m.timestamp
                == event->Started_timestamp
            &&& event is Tick ==> m.message_type == MessageType::Announcement && m.timestamp
                == event->Tick_timestamp
            &&& event is Datagram ==> m.message_type == MessageType::Response && m.timestamp
                == event->Datagram_timestamp
            &&& m.network_name == before.ctx.network_name
            &&& m.network_secret_digest == before.ctx.network_secret_digest
            &&& m.listeners == connectable(
                before.ctx.running_listeners,
                before.ctx.interface_ipv4s,
                before.ctx.interface_ipv6s,
            )
            &&& m.hostname == before.ctx.hostname
            &&& m.instance_id == before.ctx.id
            &&& m.version == before.ctx.version
            &&& before.peer_manager is Alive ==> before.peer_manager == PeerManagerRef::Alive(
                m.peer_id,
            )
        },
{
    if let Some(bytes) = step.send {
        let (message_type, timestamp) = match event {
            LoopEvent::Started { timestamp } => (MessageType::Query, timestamp),
            LoopEvent::Tick { timestamp } => (MessageType::Announcement, timestamp),
            LoopEvent::Datagram { timestamp, .. } => (MessageType::Response, timestamp),
            _ => arbitrary(),
        };
        assert(before.says(message_type, timestamp, bytes@));
        let id = choose|id: PeerId|
            may_be_id(before.peer_manager, id) && bytes@ == (#[trigger] message_of(
                before.ctx,
                message_type,
                id,
                timestamp,
            )).image();
        law_decode_inverts_encode(
            message_of(before.ctx, message_type, id, timestamp),
            Seq::empty(),
        );
    }
}

/// Law: after an announcement the loop drops each peer that was last heard of
/// ninety seconds ago or more, and keeps each other just as it is.
pub proof fn law_loop_forgets_after_ninety_seconds(
    before: ConnectorView,
    after: ConnectorView,
    session: Session,
    event: LoopEvent,
    step: LoopStep,
    k: PeerId,
)
    requires
        loop_does(before, after, session, event, step),
        event is AnnouncementDone,
    ensures
        after.peers.contains_key(k) <==> before.peers.contains_key(k)
            && event->AnnouncementDone_now < before.peers[k].last_seen + 90_000_000_000,
        after.peers.contains_key(k) ==> after.peers[k] == before.peers[k],
{
}

/// Law: the loop waits first for its beginning, then for whatever comes from
/// outside, and after an announcement for its end. An event takes it there.
pub proof fn law_loop_waits_in_turn(
    before: ConnectorView,
    after: ConnectorView,
    session: Session,
    event: LoopEvent,
    step: LoopStep,
    other: LoopEvent,
)
    requires
        loop_does(before, after, session, event, step),
    ensures
        loop_expects(LoopState::Starting, other) <==> other is Started,
        loop_expects(LoopState::Announcing, other) <==> other is AnnouncementDone,
        loop_expects(LoopState::Waiting, other) <==> !(other is Started) && !(
        other is AnnouncementDone),
        !loop_expects(LoopState::Stopped, other),
        step.next == LoopState::Announcing <==> event is Tick,
        step.next == LoopState::Stopped <==> event is Shutdown,
        step.next == LoopState::Waiting <==> !(event is Tick) && !(event is Shutdown),
{
}

/// Law: a datagram that is no message is refused and changes nothing, and one
/// that is a message is dealt with as that message.
pub proof fn law_received_or_refused(
    before: ConnectorView,
    after: ConnectorView,
    session: Session,
    bytes: Seq<u8>,
    now: u128,
    r: Result<MessageOutcome, DiscoveryError>,
)
    requires
        received(before, after, session, bytes, now, r),
    ensures
        r is Err <==> decoding(bytes) is None,
        r matches Err(e) ==> after == before && e == DiscoveryError::Codec(CodecError::Deserialize),
        r matches Ok(outcome) ==> dealt_with(
            before,
            after,
            session,
            decoding(bytes)->0,
            parsed_urls(decoding(bytes)->0.listeners),
            now,
            outcome,
        ),
{
}

/// Law: a running session holds a socket and both channels, a stopped one holds
/// none. Changing the session, or filing a peer, changes nothing else.
pub proof fn law_sessions_and_entries(node: ConnectorView, session: Session, p: PeerView)
    ensures
        Session::running().socket && Session::running().shutdown_tx && Session::running().peer_tx,
        !Session::stopped().socket && !Session::stopped().shutdown_tx
            && !Session::stopped().peer_tx,
        node.in_session(session).session == session,
        node.in_session(session).peers == node.peers,
        node.in_session(session).ctx == node.ctx,
        node.in_session(session).peer_manager == node.peer_manager,
        node.recorded(p).peers == node.peers.insert(p.peer_id, p),
        node.recorded(p).session == node.session,
        node.recorded(p).ctx == node.ctx,
        node.recorded(p).peer_manager == node.peer_manager,
{
}

/// Law: nodes announce themselves every ten seconds to port 55301 of the group
/// 224.0.0.251, wait two seconds for a first peer, and take datagrams of up to
/// 8192 bytes. The URL of discovery is that of the group.
pub proof fn law_rates_and_places()
    ensures
        DISCOVERY_INTERVAL_SECS == 10,
        QUERY_TIMEOUT_SECS == 2,
        DATAGRAM_CAPACITY == 8192,
        MULTICAST_PORT == 55301,
        MULTICAST_ADDR@ == "224.0.0.251"@,
        remote_url_spec() == "multicast://"@ + "224.0.0.251"@ + ":"@ + decimal(55301),
{
}

/// Law: an error of opening the socket is told as that of the step that failed,
/// and each other error in its own words.
pub proof fn law_errors_in_words(step: SetupStep)
    ensures
        error_text(DiscoveryError::Setup(step)) == Some(failure_text_spec(step)),
        error_text(DiscoveryError::AlreadyStarted) == Some("Discovery already started"@),
        error_text(DiscoveryError::NotStarted) is None,
        error_text(DiscoveryError::Codec(CodecError::Serialize)) == Some(
            "Failed to serialize discovery message"@,
        ),
        error_text(DiscoveryError::Codec(CodecError::Deserialize)) == Some(
            "Failed to deserialize discovery message"@,
        ),
{
}

} // verus!
