//! The peers a node has heard of, and for how long it remembers them.

use std::collections::HashMap;
use vstd::prelude::*;

use crate::listener::{copy_urls, url_views, ListenerUrl, UrlView};
use crate::message::PeerId;

verus! {

broadcast use vstd::std_specs::hash::group_hash_axioms;

/// How long a peer is remembered after it was last heard of, in nanoseconds.
pub const PEER_TTL_NANOS: u128 = 90_000_000_000;

/// A peer as its last message described it.
#[derive(Debug)]
pub struct DiscoveredPeer {
    pub peer_id: PeerId,
    /// Where the peer accepts connections, in the order it gave them.
    pub listeners: Vec<ListenerUrl>,
    pub hostname: String,
    pub instance_id: String,
    /// When the peer was last heard of, in nanoseconds of a monotonic clock.
    pub last_seen: u128,
}

/// The mathematical value of a [`DiscoveredPeer`].
pub struct PeerView {
    pub peer_id: PeerId,
    pub listeners: Seq<UrlView>,
    pub hostname: Seq<char>,
    pub instance_id: Seq<char>,
    pub last_seen: u128,
}

impl View for DiscoveredPeer {
    type V = PeerView;

    open spec fn view(&self) -> PeerView {
        PeerView {
            peer_id: self.peer_id,
            listeners: url_views(self.listeners@),
            hostname: self.hostname@,
            instance_id: self.instance_id@,
            last_seen: self.last_seen,
        }
    }
}

/// The values of a sequence of peers.
pub open spec fn peer_views(s: Seq<DiscoveredPeer>) -> Seq<PeerView> {
    s.map_values(|p: DiscoveredPeer| p@)
}

impl Clone for DiscoveredPeer {
    fn clone(&self) -> (r: DiscoveredPeer)
        ensures
            r@ == self@,
    {
        DiscoveredPeer {
            peer_id: self.peer_id,
            listeners: copy_urls(&self.listeners),
            hostname: self.hostname.clone(),
            instance_id: self.instance_id.clone(),
            last_seen: self.last_seen,
        }
    }
}

/// Whether a peer that was last heard of at `last_seen` is still remembered at
/// `now`. A moment after `now` counts as no time ago.
pub open spec fn is_fresh(last_seen: u128, now: u128) -> bool {
    now - last_seen < PEER_TTL_NANOS
}

/// The peers that are still remembered at `now`.
pub open spec fn fresh_peers(m: Map<PeerId, PeerView>, now: u128) -> Map<PeerId, PeerView> {
    m.restrict(m.dom().filter(|k: PeerId| is_fresh(m[k].last_seen, now)))
}

/// Whether `s` gives each peer of `m` once, in some order.
pub open spec fn is_listing(s: Seq<PeerView>, m: Map<PeerId, PeerView>) -> bool {
    &&& s.len() == m.dom().len()
    &&& forall|i: int|
        0 <= i < s.len() ==> m.contains_key((#[trigger] s[i]).peer_id) && m[s[i].peer_id] == s[i]
    &&& forall|i: int, j: int|
        0 <= i < j < s.len() ==> (#[trigger] s[i]).peer_id != (#[trigger] s[j]).peer_id
    &&& forall|k: PeerId| #[trigger]
        m.contains_key(k) ==> exists|i: int| 0 <= i < s.len() && (#[trigger] s[i]).peer_id == k
}

/// Whether `p` is a peer of `m` that no other was heard of after.
pub open spec fn is_latest(p: PeerView, m: Map<PeerId, PeerView>) -> bool {
    &&& m.contains_key(p.peer_id)
    &&& m[p.peer_id] == p
    &&& forall|k: PeerId| #[trigger] m.contains_key(k) ==> m[k].last_seen <= p.last_seen
}

/// Whether a peer last heard of at `last_seen` is still remembered at `now`.
pub fn still_fresh(last_seen: u128, now: u128) -> (r: bool)
    ensures
        r == is_fresh(last_seen, now),
{
    if now > last_seen {
        now - last_seen < PEER_TTL_NANOS
    } else {
        true
    }
}

/// Law: forgetting the stale peers leaves none that is stale and changes
/// nothing of the others.
pub proof fn law_fresh_peers_exact(m: Map<PeerId, PeerView>, now: u128, k: PeerId)
    ensures
        fresh_peers(m, now).contains_key(k) <==> m.contains_key(k) && is_fresh(
            m[k].last_seen,
            now,
        ),
        fresh_peers(m, now).contains_key(k) ==> fresh_peers(m, now)[k] == m[k],
{
}

/// Law: what is forgotten earlier would have been forgotten later too, so
/// forgetting at two moments is forgetting at the later one. At one moment,
/// forgetting again changes nothing.
pub proof fn law_forgetting_accumulates(m: Map<PeerId, PeerView>, earlier: u128, later: u128)
    requires
        earlier <= later,
    ensures
        fresh_peers(fresh_peers(m, earlier), later) == fresh_peers(m, later),
{
    assert(fresh_peers(fresh_peers(m, earlier), later) =~= fresh_peers(m, later));
}

/// Law: from when it was last heard of, a peer is remembered until its time to
/// live has passed, and then no longer, whatever was known of it before.
pub proof fn law_peer_remembered_for_ttl(m: Map<PeerId, PeerView>, p: PeerView, now: u128)
    ensures
        fresh_peers(m.insert(p.peer_id, p), now).contains_key(p.peer_id) <==> now < p.last_seen
            + PEER_TTL_NANOS,
{
}

/// The peers heard of, each under its number.
pub struct PeerTable {
    peers: HashMap<PeerId, DiscoveredPeer>,
}

impl View for PeerTable {
    type V = Map<PeerId, PeerView>;

    closed spec fn view(&self) -> Map<PeerId, PeerView> {
        self.peers@.map_values(|p: DiscoveredPeer| p@)
    }
}

impl PeerTable {
    /// Each peer is filed under its own number.
    pub open spec fn wf(&self) -> bool {
        &&& self@.dom().finite()
        &&& forall|k: PeerId| #[trigger] self@.contains_key(k) ==> self@[k].peer_id == k
    }

    /// A table without peers.
    pub fn new() -> (r: PeerTable)
        ensures
            r.wf(),
            r@ == Map::<PeerId, PeerView>::empty(),
    {
        let r = PeerTable { peers: HashMap::new() };
        assert(r@ =~= Map::<PeerId, PeerView>::empty());
        r
    }

    /// How many peers there are.
    pub fn len(&self) -> (r: usize)
        ensures
            r == self@.dom().len(),
    {
        proof {
            assert(self@.dom() =~= self.peers@.dom());
        }
        self.peers.len()
    }

    /// Files a peer under its number, in place of what was known of it. Returns
    /// whether it was unknown.
    pub fn record(&mut self, peer: DiscoveredPeer) -> (is_new: bool)
        requires
            old(self).wf(),
        ensures
            final(self).wf(),
            final(self)@ == old(self)@.insert(peer.peer_id, peer@),
            is_new == !old(self)@.contains_key(peer.peer_id),
    {
        let is_new: bool = !self.peers.contains_key(&peer.peer_id);
        let id: PeerId = peer.peer_id;
        let ghost value = peer@;
        self.peers.insert(id, peer);
        assert(self@ =~= old(self)@.insert(id, value));
        is_new
    }

    /// All peers, in no particular order.
    pub fn list(&self) -> (r: Vec<DiscoveredPeer>)
        requires
            self.wf(),
        ensures
            is_listing(peer_views(r@), self@),
    {
        let mut r: Vec<DiscoveredPeer> = Vec::new();
        let entries = self.peers.iter();
        let ghost seen = vstd::std_specs::iter::IteratorSpec::remaining(&entries);
        for entry in it: entries
            invariant
                it.seq() == seen,
                r@.len() == it.index(),
                forall|j: int| 0 <= j < r@.len() ==> (#[trigger] r@[j])@ == seen[j].1@,
        {
            r.push(entry.1.clone());
        }
        proof {
            self.lemma_listing(seen, r@);
        }
        r
    }

    /// A peer that no other was heard of after, if there are peers.
    pub fn latest(&self) -> (r: Option<DiscoveredPeer>)
        requires
            self.wf(),
        ensures
            match r {
                Some(p) => is_latest(p@, self@),
                None => self@ == Map::<PeerId, PeerView>::empty(),
            },
    {
        let mut best: Option<DiscoveredPeer> = None;
        let entries = self.peers.iter();
        let ghost seen = vstd::std_specs::iter::IteratorSpec::remaining(&entries);
        for entry in it: entries
            invariant
                self.wf(),
                it.seq() == seen,
                forall|i: int|
                    0 <= i < seen.len() ==> self.peers@.contains_key(*(#[trigger] seen[i]).0)
                        && self.peers@[*seen[i].0] == *seen[i].1,
                best is None ==> it.index() == 0,
                best matches Some(p) ==> self@.contains_key(p.peer_id) && self@[p.peer_id] == p@,
                best matches Some(p) ==> forall|i: int|
                    0 <= i < it.index() ==> (#[trigger] seen[i]).1.last_seen <= p.last_seen,
        {
            proof {
                assert(self.peers@.contains_key(*seen[it.index()].0));
                assert(self@.contains_key(*entry.0));
            }
            let better: bool = match &best {
                Some(p) => entry.1.last_seen >= p.last_seen,
                None => true,
            };
            if better {
                best = Some(entry.1.clone());
            }
        }
        proof {
            assert forall|k: PeerId| #[trigger] self@.contains_key(k) implies (
            best matches Some(p) && self@[k].last_seen <= p.last_seen) by {
                assert(self.peers@.contains_key(k));
                let i = choose|i: int| 0 <= i < seen.len() && seen[i] == (&k, &self.peers@[k]);
                assert(seen[i].1.last_seen == self@[k].last_seen);
            }
            if best is None {
                assert(self@ =~= Map::<PeerId, PeerView>::empty());
            }
        }
        best
    }

    /// Forgets the peers that were not heard of for too long.
    pub fn remove_stale(&mut self, now: u128)
        requires
            old(self).wf(),
        ensures
            final(self).wf(),
            final(self)@ == fresh_peers(old(self)@, now),
    {
        let mut stale: Vec<PeerId> = Vec::new();
        let entries = self.peers.iter();
        let ghost seen = vstd::std_specs::iter::IteratorSpec::remaining(&entries);
        let ghost before = self.peers@;
        for entry in it: entries
            invariant
                it.seq() == seen,
                forall|i: int|
                    0 <= i < seen.len() ==> before.contains_key(*(#[trigger] seen[i]).0)
                        && before[*seen[i].0] == *seen[i].1,
                forall|j: int|
                    0 <= j < stale@.len() ==> before.contains_key(#[trigger] stale@[j])
                        && !is_fresh(before[stale@[j]].last_seen, now),
                forall|i: int|
                    0 <= i < it.index() && !is_fresh((#[trigger] seen[i]).1.last_seen, now)
                        ==> stale@.contains(*seen[i].0),
        {
            let ghost listed = stale@;
            if !still_fresh(entry.1.last_seen, now) {
                let id: PeerId = *entry.0;
                stale.push(id);
                proof {
                    assert(before.contains_key(*seen[it.index()].0));
                    assert(stale@[stale@.len() - 1] == id);
                    assert forall|k: PeerId| listed.contains(k) implies stale@.contains(k) by {
                        let j = choose|j: int| 0 <= j < listed.len() && listed[j] == k;
                        assert(stale@[j] == k);
                    }
                }
            }
        }
        proof {
            assert forall|k: PeerId|
                before.contains_key(k) && !is_fresh((#[trigger] before[k]).last_seen, now) implies stale@.contains(
                k,
            ) by {
                let i = choose|i: int| 0 <= i < seen.len() && seen[i] == (&k, &before[k]);
                assert(seen[i].1.last_seen == before[k].last_seen);
            }
        }
        let mut j: usize = 0;
        while j < stale.len()
            invariant
                j <= stale.len(),
                forall|k: PeerId| #[trigger]
                    self.peers@.contains_key(k) <==> before.contains_key(k) && !stale@.take(
                        j as int,
                    ).contains(k),
                forall|k: PeerId| #[trigger]
                    self.peers@.contains_key(k) ==> self.peers@[k] == before[k],
            decreases stale.len() - j,
        {
            let id: PeerId = stale[j];
            self.peers.remove(&id);
            proof {
                let was = stale@.take(j as int);
                let is = stale@.take(j + 1);
                assert(is =~= was.push(id));
                assert forall|k: PeerId| is.contains(k) <==> was.contains(k) || k == id by {
                    if was.contains(k) {
                        let i = choose|i: int| 0 <= i < was.len() && was[i] == k;
                        assert(is[i] == k);
                    }
                    assert(is[j as int] == id);
                }
            }
            j = j + 1;
        }
        proof {
            assert(stale@.take(stale@.len() as int) =~= stale@);
            assert forall|k: PeerId| #[trigger] self.peers@.contains_key(k) <==> before.contains_key(
                k,
            ) && is_fresh(before[k].last_seen, now) by {
                if stale@.contains(k) {
                    let i = choose|i: int| 0 <= i < stale@.len() && stale@[i] == k;
                    assert(before.contains_key(stale@[i]));
                }
            }
            assert forall|k: PeerId| old(self)@.contains_key(k) implies (#[trigger] old(self)@[k])
                == before[k]@ by {}
            assert(self@ =~= fresh_peers(old(self)@, now));
            assert(self@.dom() =~= self.peers@.dom());
            assert forall|k: PeerId| #[trigger] self@.contains_key(k) implies self@[k].peer_id
                == k by {
                assert(old(self)@.contains_key(k));
            }
        }
    }

    /// A walk over the entries of the map meets each peer once.
    proof fn lemma_listing(&self, seen: Seq<(&PeerId, &DiscoveredPeer)>, r: Seq<DiscoveredPeer>)
        requires
            self.wf(),
            seen.no_duplicates(),
            seen.len() == self.peers@.dom().len(),
            forall|i: int|
                0 <= i < seen.len() ==> self.peers@.contains_key(*(#[trigger] seen[i]).0)
                    && self.peers@[*seen[i].0] == *seen[i].1,
            forall|k: PeerId| #[trigger]
                self.peers@.contains_key(k) ==> seen.contains((&k, &self.peers@[k])),
            r.len() == seen.len(),
            forall|j: int| 0 <= j < r.len() ==> (#[trigger] r[j])@ == seen[j].1@,
        ensures
            is_listing(peer_views(r), self@),
    {
        let s = peer_views(r);
        assert(self@.dom() =~= self.peers@.dom());
        assert forall|i: int| 0 <= i < s.len() implies self@.contains_key(
            (#[trigger] s[i]).peer_id,
        ) && self@[s[i].peer_id] == s[i] && s[i].peer_id == *seen[i].0 by {
            assert(self@.contains_key(*seen[i].0));
            assert(r[i]@ == seen[i].1@);
        }
        assert forall|i: int, j: int| 0 <= i < j < s.len() implies (#[trigger] s[i]).peer_id != (
        #[trigger] s[j]).peer_id by {
            assert(s[i].peer_id == *seen[i].0 && s[j].peer_id == *seen[j].0);
            if *seen[i].0 == *seen[j].0 {
                assert(seen[i] == seen[j]);
            }
        }
        assert forall|k: PeerId| #[trigger] self@.contains_key(k) implies exists|i: int|
            0 <= i < s.len() && (#[trigger] s[i]).peer_id == k by {
            assert(self.peers@.contains_key(k));
            let i = choose|i: int| 0 <= i < seen.len() && seen[i] == (&k, &self.peers@[k]);
            assert(s[i].peer_id == k);
        }
    }
}

/// Law: the value of a peer is that of each of its parts.
pub proof fn law_peer_by_parts(p: DiscoveredPeer, s: Seq<DiscoveredPeer>)
    ensures
        p@.peer_id == p.peer_id,
        p@.hostname == p.hostname@,
        p@.instance_id == p.instance_id@,
        p@.last_seen == p.last_seen,
        p@.listeners.len() == p.listeners@.len(),
        forall|i: int|
            0 <= i < p.listeners@.len() ==> #[trigger] p@.listeners[i] == p.listeners@[i]@,
        peer_views(s).len() == s.len(),
        forall|i: int| 0 <= i < s.len() ==> #[trigger] peer_views(s)[i] == s[i]@,
{
}

/// Law: a peer is remembered for ninety seconds from when it was last heard of:
/// up to then it stays just as it is, and from then on it is gone. What is
/// forgotten depends on nothing else of the peer.
pub proof fn law_ninety_seconds(m: Map<PeerId, PeerView>, now: u128, k: PeerId)
    ensures
        m.contains_key(k) && now < m[k].last_seen + 90_000_000_000 ==> fresh_peers(
            m,
            now,
        ).contains_key(k) && fresh_peers(m, now)[k] == m[k],
        m.contains_key(k) && now >= m[k].last_seen + 90_000_000_000 ==> !fresh_peers(
            m,
            now,
        ).contains_key(k),
        !m.contains_key(k) ==> !fresh_peers(m, now).contains_key(k),
        forall|seen: u128| #[trigger] is_fresh(seen, now) <==> now < seen + 90_000_000_000,
{
}

/// Law: a list of peers holds what is known of each peer, once, and nothing else.
pub proof fn law_listing_is_complete(s: Seq<PeerView>, m: Map<PeerId, PeerView>)
    requires
        is_listing(s, m),
    ensures
        s.len() == m.dom().len(),
        forall|k: PeerId| m.contains_key(k) ==> s.contains(#[trigger] m[k]),
        forall|p: PeerView| #[trigger]
            s.contains(p) ==> m.contains_key(p.peer_id) && m[p.peer_id] == p,
        forall|i: int, j: int|
            0 <= i < s.len() && 0 <= j < s.len() && i != j ==> (#[trigger] s[i]).peer_id != (
            #[trigger] s[j]).peer_id,
{
    assert forall|k: PeerId| m.contains_key(k) implies s.contains(#[trigger] m[k]) by {
        let i = choose|i: int| 0 <= i < s.len() && (#[trigger] s[i]).peer_id == k;
        assert(s[i] == m[k]);
    }
    assert forall|i: int, j: int| 0 <= i < s.len() && 0 <= j < s.len() && i != j implies (
    #[trigger] s[i]).peer_id != (#[trigger] s[j]).peer_id by {
        if j < i {
            assert(s[j].peer_id != s[i].peer_id);
        }
    }
}

/// Law: the latest peer is known as it is given, and no other was heard of after
/// it.
pub proof fn law_latest_was_heard_last(p: PeerView, m: Map<PeerId, PeerView>, k: PeerId)
    requires
        is_latest(p, m),
    ensures
        m.contains_key(p.peer_id),
        m[p.peer_id] == p,
        m.contains_key(k) ==> m[k].last_seen <= p.last_seen,
{
}

} // verus!
