//! What a node knows of itself, as plain values read at one moment.

use vstd::prelude::*;

use crate::listener::{copy_urls, url_views, ListenerUrl, UrlView};
use crate::message::digest_view;
use crate::text::{copy_texts, texts};

verus! {

/// The network that a node belongs to.
pub struct NetworkIdentity {
    pub network_name: String,
    /// A digest of the network's secret, where the node has one.
    pub network_secret_digest: Option<[u8; 32]>,
}

/// A node's configuration and surroundings.
pub struct GlobalCtx {
    /// The identifier of this running instance.
    pub id: String,
    pub hostname: String,
    pub version: String,
    pub network_identity: NetworkIdentity,
    /// Where the node accepts connections.
    pub running_listeners: Vec<ListenerUrl>,
    /// The IPv4 addresses of the interfaces, in dotted decimal.
    pub interface_ipv4s: Vec<String>,
    /// The IPv6 addresses of the interfaces, in text without brackets.
    pub interface_ipv6s: Vec<String>,
    pub enable_multicast_discovery: bool,
}

/// The mathematical value of a [`GlobalCtx`].
pub struct CtxView {
    pub id: Seq<char>,
    pub hostname: Seq<char>,
    pub version: Seq<char>,
    pub network_name: Seq<char>,
    pub network_secret_digest: Option<Seq<u8>>,
    pub running_listeners: Seq<UrlView>,
    pub interface_ipv4s: Seq<Seq<char>>,
    pub interface_ipv6s: Seq<Seq<char>>,
    pub enable_multicast_discovery: bool,
}

impl View for GlobalCtx {
    type V = CtxView;

    open spec fn view(&self) -> CtxView {
        CtxView {
            id: self.id@,
            hostname: self.hostname@,
            version: self.version@,
            network_name: self.network_identity.network_name@,
            network_secret_digest: digest_view(self.network_identity.network_secret_digest),
            running_listeners: url_views(self.running_listeners@),
            interface_ipv4s: texts(self.interface_ipv4s@),
            interface_ipv6s: texts(self.interface_ipv6s@),
            enable_multicast_discovery: self.enable_multicast_discovery,
        }
    }
}

impl Clone for GlobalCtx {
    fn clone(&self) -> (r: GlobalCtx)
        ensures
            r@ == self@,
    {
        GlobalCtx {
            id: self.id.clone(),
            hostname: self.hostname.clone(),
            version: self.version.clone(),
            network_identity: NetworkIdentity {
                network_name: self.network_identity.network_name.clone(),
                network_secret_digest: self.network_identity.network_secret_digest,
            },
            running_listeners: copy_urls(&self.running_listeners),
            interface_ipv4s: copy_texts(&self.interface_ipv4s),
            interface_ipv6s: copy_texts(&self.interface_ipv6s),
            enable_multicast_discovery: self.enable_multicast_discovery,
        }
    }
}

/// Law: the value of a node's configuration is that of each of its parts.
pub proof fn law_context_by_parts(c: GlobalCtx)
    ensures
        c@.id == c.id@,
        c@.hostname == c.hostname@,
        c@.version == c.version@,
        c@.network_name == c.network_identity.network_name@,
        c@.network_secret_digest is Some <==> c.network_identity.network_secret_digest is Some,
        c.network_identity.network_secret_digest matches Some(d) ==> c@.network_secret_digest
            == Some(d@),
        c@.running_listeners.len() == c.running_listeners@.len(),
        forall|i: int|
            0 <= i < c.running_listeners@.len() ==> #[trigger] c@.running_listeners[i]
                == c.running_listeners@[i]@,
        c@.interface_ipv4s.len() == c.interface_ipv4s@.len(),
        forall|i: int|
            0 <= i < c.interface_ipv4s@.len() ==> #[trigger] c@.interface_ipv4s[i]
                == c.interface_ipv4s@[i]@,
        c@.interface_ipv6s.len() == c.interface_ipv6s@.len(),
        forall|i: int|
            0 <= i < c.interface_ipv6s@.len() ==> #[trigger] c@.interface_ipv6s[i]
                == c.interface_ipv6s@[i]@,
        c@.enable_multicast_discovery == c.enable_multicast_discovery,
{
}

} // verus!
