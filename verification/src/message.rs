//! Discovery messages and their encoding.

use vstd::prelude::*;

use crate::text::texts;
use crate::wire::{
    byte_range, le_bytes, lemma_byte_ranges, lemma_peel_le, lemma_peel_opt_block, lemma_peel_text,
    lemma_peel_texts, starts_with, wire_opt_block, wire_text, wire_texts,
};

verus! {

/// The number by which a peer is known in its network.
pub type PeerId = u32;

/// What a discovery message asks for or tells.
#[derive(Clone, Copy, Debug, PartialEq, Eq, Structural)]
pub enum MessageType {
    /// Sent now and then: this node is here.
    Announcement,
    /// Asks everyone who hears it to respond.
    Query,
    /// The answer to a query.
    Response,
}

/// A message as nodes exchange it.
#[derive(Debug)]
pub struct DiscoveryMessage {
    pub message_type: MessageType,
    pub peer_id: PeerId,
    pub network_name: String,
    pub network_secret_digest: Option<[u8; 32]>,
    pub listeners: Vec<String>,
    pub hostname: String,
    pub instance_id: String,
    pub version: String,
    /// Seconds since the Unix epoch at which the message was made.
    pub timestamp: u64,
}

/// The mathematical value of a [`DiscoveryMessage`].
pub struct MessageView {
    pub message_type: MessageType,
    pub peer_id: PeerId,
    pub network_name: Seq<char>,
    pub network_secret_digest: Option<Seq<u8>>,
    pub listeners: Seq<Seq<char>>,
    pub hostname: Seq<char>,
    pub instance_id: Seq<char>,
    pub version: Seq<char>,
    pub timestamp: u64,
}

/// The bytes of an optional digest.
pub open spec fn digest_view(d: Option<[u8; 32]>) -> Option<Seq<u8>> {
    match d {
        Some(a) => Some(a@),
        None => None,
    }
}

impl View for DiscoveryMessage {
    type V = MessageView;

    open spec fn view(&self) -> MessageView {
        MessageView {
            message_type: self.message_type,
            peer_id: self.peer_id,
            network_name: self.network_name@,
            network_secret_digest: digest_view(self.network_secret_digest),
            listeners: texts(self.listeners@),
            hostname: self.hostname@,
            instance_id: self.instance_id@,
            version: self.version@,
            timestamp: self.timestamp,
        }
    }
}

/// The number that stands for a message type on the wire.
pub open spec fn type_tag(t: MessageType) -> u32 {
    match t {
        MessageType::Announcement => 0,
        MessageType::Query => 1,
        MessageType::Response => 2,
    }
}

/// The fields of a message as they are read off the wire, with the type still
/// a number.
#[derive(Debug)]
pub struct WireFields {
    pub tag: u32,
    pub peer_id: PeerId,
    pub network_name: String,
    pub network_secret_digest: Option<[u8; 32]>,
    pub listeners: Vec<String>,
    pub hostname: String,
    pub instance_id: String,
    pub version: String,
    pub timestamp: u64,
}

/// The mathematical value of [`WireFields`].
pub struct FieldsView {
    pub tag: u32,
    pub peer_id: PeerId,
    pub network_name: Seq<char>,
    pub network_secret_digest: Option<Seq<u8>>,
    pub listeners: Seq<Seq<char>>,
    pub hostname: Seq<char>,
    pub instance_id: Seq<char>,
    pub version: Seq<char>,
    pub timestamp: u64,
}

impl View for WireFields {
    type V = FieldsView;

    open spec fn view(&self) -> FieldsView {
        FieldsView {
            tag: self.tag,
            peer_id: self.peer_id,
            network_name: self.network_name@,
            network_secret_digest: digest_view(self.network_secret_digest),
            listeners: texts(self.listeners@),
            hostname: self.hostname@,
            instance_id: self.instance_id@,
            version: self.version@,
            timestamp: self.timestamp,
        }
    }
}

impl FieldsView {
    /// A digest is 32 bytes long.
    pub open spec fn wf(self) -> bool {
        self.network_secret_digest matches Some(d) ==> d.len() == 32
    }

    /// The fields in order.
    pub open spec fn image(self) -> Seq<u8> {
        le_bytes(self.tag as nat, 4) + le_bytes(self.peer_id as nat, 4) + wire_text(
            self.network_name,
        ) + wire_opt_block(self.network_secret_digest) + wire_texts(self.listeners) + wire_text(
            self.hostname,
        ) + wire_text(self.instance_id) + wire_text(self.version) + le_bytes(
            self.timestamp as nat,
            8,
        )
    }
}

impl MessageView {
    /// A digest is 32 bytes long.
    pub open spec fn wf(self) -> bool {
        self.network_secret_digest matches Some(d) ==> d.len() == 32
    }

    /// The fields of the message, with a number for its type.
    pub open spec fn fields_tagged(self, tag: u32) -> FieldsView {
        FieldsView {
            tag,
            peer_id: self.peer_id,
            network_name: self.network_name,
            network_secret_digest: self.network_secret_digest,
            listeners: self.listeners,
            hostname: self.hostname,
            instance_id: self.instance_id,
            version: self.version,
            timestamp: self.timestamp,
        }
    }

    /// The message with the number that stands for its type.
    pub open spec fn fields(self) -> FieldsView {
        self.fields_tagged(type_tag(self.message_type))
    }

    /// The bytes that stand for the message on the wire.
    pub open spec fn image(self) -> Seq<u8> {
        self.fields().image()
    }
}

/// Why a datagram could not be made or read.
#[derive(Clone, Copy, Debug, PartialEq, Eq, Structural)]
pub enum CodecError {
    Serialize,
    Deserialize,
}

/// The error of the `bincode` crate, carried and never looked into.
#[verifier::external_type_specification]
#[verifier::external_body]
pub struct ExBincodeErrorKind(bincode::ErrorKind);

/// Calls `bincode::serialize` on the fields of a message as a tuple, with the
/// type as the number that stands for it. The contract claims that the call
/// succeeds, as nothing in a tuple of numbers, strings, an optional array and a
/// list can fail to be written to memory without a size limit, and that the
/// bytes are the fields in order: integers fixed-width and little-endian, a
/// length in eight bytes before a string and a list, one byte before an option,
/// nothing before an array.
#[verifier::external_body]
fn bincode_serialize(tag: u32, m: &DiscoveryMessage) -> (r: Result<Vec<u8>, bincode::Error>)
    ensures
        r is Ok,
        r->Ok_0@ == m@.fields_tagged(tag).image(),
{
    bincode::serialize(&(
        tag, m.peer_id, &m.network_name, &m.network_secret_digest, &m.listeners,
        &m.hostname, &m.instance_id, &m.version, m.timestamp,
    ))
}

/// Calls `bincode::deserialize` for the tuple that [`bincode_serialize`] writes.
/// The contract claims that it gives back fields whose image the bytes start
/// with, bytes after them being left alone, and that it fails only where the
/// bytes start with the image of no fields at all.
#[verifier::external_body]
fn bincode_deserialize(bytes: &[u8]) -> (r: Result<WireFields, bincode::Error>)
    ensures
        match r {
            Ok(f) => starts_with(bytes@, f@.image()),
            Err(_) => forall|f: FieldsView| f.wf() ==> !starts_with(bytes@, #[trigger] f.image()),
        },
{
    let (tag, peer_id, network_name, network_secret_digest, listeners, hostname, instance_id,
        version, timestamp) = bincode::deserialize(bytes)?;
    Ok(WireFields {
        tag, peer_id, network_name, network_secret_digest, listeners, hostname, instance_id,
        version, timestamp,
    })
}

/// The image of fields, and what follows it, taken apart from the front.
proof fn lemma_image_nested(f: FieldsView, rest: Seq<u8>)
    ensures
        f.image() + rest == le_bytes(f.tag as nat, 4) + (le_bytes(f.peer_id as nat, 4) + (wire_text(
            f.network_name,
        ) + (wire_opt_block(f.network_secret_digest) + (wire_texts(f.listeners) + (wire_text(
            f.hostname,
        ) + (wire_text(f.instance_id) + (wire_text(f.version) + (le_bytes(f.timestamp as nat, 8)
            + rest)))))))),
{
    assert(f.image() + rest =~= le_bytes(f.tag as nat, 4) + (le_bytes(f.peer_id as nat, 4) + (
    wire_text(f.network_name) + (wire_opt_block(f.network_secret_digest) + (wire_texts(f.listeners)
        + (wire_text(f.hostname) + (wire_text(f.instance_id) + (wire_text(f.version) + (le_bytes(
        f.timestamp as nat,
        8,
    ) + rest)))))))));
}

/// Fields can be read off the front of anything a machine can hold: no two
/// differ and both stand at the start of the same bytes.
pub proof fn lemma_fields_unique(bytes: Seq<u8>, f: FieldsView, g: FieldsView)
    requires
        f.wf(),
        g.wf(),
        bytes.len() < byte_range(8),
        starts_with(bytes, f.image()),
        starts_with(bytes, g.image()),
    ensures
        f == g,
{
    let x = bytes.skip(f.image().len() as int);
    let y = bytes.skip(g.image().len() as int);
    assert(bytes =~= f.image() + x);
    assert(bytes =~= g.image() + y);
    lemma_image_nested(f, x);
    lemma_image_nested(g, y);
    lemma_byte_ranges();
    let fx8 = le_bytes(f.timestamp as nat, 8) + x;
    let gy8 = le_bytes(g.timestamp as nat, 8) + y;
    let fx7 = wire_text(f.version) + fx8;
    let gy7 = wire_text(g.version) + gy8;
    let fx6 = wire_text(f.instance_id) + fx7;
    let gy6 = wire_text(g.instance_id) + gy7;
    let fx5 = wire_text(f.hostname) + fx6;
    let gy5 = wire_text(g.hostname) + gy6;
    let fx4 = wire_texts(f.listeners) + fx5;
    let gy4 = wire_texts(g.listeners) + gy5;
    let fx3 = wire_opt_block(f.network_secret_digest) + fx4;
    let gy3 = wire_opt_block(g.network_secret_digest) + gy4;
    let fx2 = wire_text(f.network_name) + fx3;
    let gy2 = wire_text(g.network_name) + gy3;
    let fx1 = le_bytes(f.peer_id as nat, 4) + fx2;
    let gy1 = le_bytes(g.peer_id as nat, 4) + gy2;
    lemma_peel_le(f.tag as nat, fx1, g.tag as nat, gy1, 4);
    lemma_peel_le(f.peer_id as nat, fx2, g.peer_id as nat, gy2, 4);
    lemma_peel_text(f.network_name, fx3, g.network_name, gy3);
    lemma_peel_opt_block(f.network_secret_digest, fx4, g.network_secret_digest, gy4, 32);
    lemma_peel_texts(f.listeners, fx5, g.listeners, gy5);
    lemma_peel_text(f.hostname, fx6, g.hostname, gy6);
    lemma_peel_text(f.instance_id, fx7, g.instance_id, gy7);
    lemma_peel_text(f.version, fx8, g.version, gy8);
    lemma_peel_le(f.timestamp as nat, x, g.timestamp as nat, y, 8);
}

/// Law: messages with the same bytes are the same message, and no message's
/// bytes begin those of another.
pub proof fn law_encoding_unambiguous(bytes: Seq<u8>, a: MessageView, b: MessageView)
    requires
        a.wf(),
        b.wf(),
        bytes.len() <= u64::MAX,
        starts_with(bytes, a.image()),
        starts_with(bytes, b.image()),
    ensures
        a == b,
{
    lemma_byte_ranges();
    lemma_fields_unique(bytes, a.fields(), b.fields());
}

/// The message that a datagram starts with, if it starts with one.
pub open spec fn decoding(bytes: Seq<u8>) -> Option<MessageView> {
    if exists|m: MessageView| m.wf() && starts_with(bytes, #[trigger] m.image()) {
        Some(choose|m: MessageView| m.wf() && starts_with(bytes, #[trigger] m.image()))
    } else {
        None
    }
}

/// Law: a datagram that starts with the bytes of a message is read as that
/// message and no other.
pub proof fn law_decoding_exact(bytes: Seq<u8>, m: MessageView)
    requires
        m.wf(),
        bytes.len() <= u64::MAX,
    ensures
        decoding(bytes) == Some(m) <==> starts_with(bytes, m.image()),
{
    if starts_with(bytes, m.image()) {
        law_encoding_unambiguous(bytes, m, decoding(bytes)->0);
    }
}

/// Law: reading gives back what was written, whatever bytes follow it.
pub proof fn law_decode_inverts_encode(m: MessageView, trailing: Seq<u8>)
    requires
        m.wf(),
        m.image().len() + trailing.len() <= u64::MAX,
    ensures
        decoding(m.image() + trailing) == Some(m),
        decoding(m.image()) == Some(m),
{
    assert((m.image() + trailing).take(m.image().len() as int) =~= m.image());
    assert(m.image().take(m.image().len() as int) =~= m.image());
    law_decoding_exact(m.image() + trailing, m);
    law_decoding_exact(m.image(), m);
}

impl MessageType {
    /// The number that stands for the type on the wire.
    pub fn tag(self) -> (r: u32)
        ensures
            r == type_tag(self),
    {
        match self {
            MessageType::Announcement => 0,
            MessageType::Query => 1,
            MessageType::Response => 2,
        }
    }

    /// The type that a number stands for, if it stands for one.
    pub fn from_tag(tag: u32) -> (r: Option<MessageType>)
        ensures
            match r {
                Some(t) => type_tag(t) == tag,
                None => forall|t: MessageType| #[trigger] type_tag(t) != tag,
            },
    {
        if tag == 0 {
            Some(MessageType::Announcement)
        } else if tag == 1 {
            Some(MessageType::Query)
        } else if tag == 2 {
            Some(MessageType::Response)
        } else {
            None
        }
    }
}

impl WireFields {
    /// Gives the fields a type, where their number stands for one.
    pub fn into_message(self) -> (r: Option<DiscoveryMessage>)
        ensures
            match r {
                Some(m) => m@.fields() == self@,
                None => forall|m: MessageView| #[trigger] m.fields() != self@,
            },
    {
        match MessageType::from_tag(self.tag) {
            Some(message_type) => Some(
                DiscoveryMessage {
                    message_type,
                    peer_id: self.peer_id,
                    network_name: self.network_name,
                    network_secret_digest: self.network_secret_digest,
                    listeners: self.listeners,
                    hostname: self.hostname,
                    instance_id: self.instance_id,
                    version: self.version,
                    timestamp: self.timestamp,
                },
            ),
            None => {
                proof {
                    assert forall|m: MessageView| #[trigger] m.fields() != self@ by {
                        assert(type_tag(m.message_type) != self.tag);
                    }
                }
                None
            },
        }
    }
}

impl DiscoveryMessage {
    /// The message as the bytes of a datagram.
    pub fn encode(&self) -> (r: Result<Vec<u8>, CodecError>)
        ensures
            r matches Ok(bytes) && bytes@ == self@.image(),
    {
        match bincode_serialize(self.message_type.tag(), self) {
            Ok(bytes) => Ok(bytes),
            Err(_) => Err(CodecError::Serialize),
        }
    }

    /// Reads a message off the front of a datagram.
    pub fn decode(bytes: &[u8]) -> (r: Result<DiscoveryMessage, CodecError>)
        ensures
            match r {
                Ok(m) => decoding(bytes@) == Some(m@),
                Err(e) => decoding(bytes@) is None && e == CodecError::Deserialize,
            },
    {
        match bincode_deserialize(bytes) {
            Ok(fields) => {
                let ghost f = fields@;
                let r = fields.into_message();
                proof {
                    lemma_byte_ranges();
                    assert(bytes@.len() == bytes.len());
                    assert forall|m: MessageView|
                        m.wf() && starts_with(bytes@, #[trigger] m.image()) implies m.fields()
                        == f by {
                        lemma_fields_unique(bytes@, f, m.fields());
                    }
                    if r is Some {
                        assert(starts_with(bytes@, r->0@.image()));
                        law_decoding_exact(bytes@, r->0@);
                    }
                }
                match r {
                    Some(m) => Ok(m),
                    None => Err(CodecError::Deserialize),
                }
            },
            Err(_) => {
                proof {
                    assert forall|m: MessageView| m.wf() implies !starts_with(
                        bytes@,
                        #[trigger] m.image(),
                    ) by {
                        assert(m.fields().wf());
                    }
                }
                Err(CodecError::Deserialize)
            },
        }
    }
}

/// Law: the value of a message is that of each of its parts.
pub proof fn law_message_by_parts(m: DiscoveryMessage)
    ensures
        m@.message_type == m.message_type,
        m@.peer_id == m.peer_id,
        m@.network_name == m.network_name@,
        m@.network_secret_digest is Some <==> m.network_secret_digest is Some,
        m.network_secret_digest matches Some(d) ==> m@.network_secret_digest == Some(d@),
        m@.listeners.len() == m.listeners@.len(),
        forall|i: int|
            0 <= i < m.listeners@.len() ==> #[trigger] m@.listeners[i] == m.listeners@[i]@,
        m@.hostname == m.hostname@,
        m@.instance_id == m.instance_id@,
        m@.version == m.version@,
        m@.timestamp == m.timestamp,
{
}

/// Law: on the wire a message is a number for its type, zero for an announcement,
/// one for a query and two for a response, and then its fields in order: the
/// sender's number, the network's name, the digest, the addresses, the host, the
/// instance, the version and the time.
pub proof fn law_message_layout(m: MessageView)
    ensures
        ({
            let number: nat = match m.message_type {
                MessageType::Announcement => 0,
                MessageType::Query => 1,
                MessageType::Response => 2,
            };
            m.image() == le_bytes(number, 4) + le_bytes(m.peer_id as nat, 4) + wire_text(
                m.network_name,
            ) + wire_opt_block(m.network_secret_digest) + wire_texts(m.listeners) + wire_text(
                m.hostname,
            ) + wire_text(m.instance_id) + wire_text(m.version) + le_bytes(m.timestamp as nat, 8)
        }),
        m.wf() <==> (m.network_secret_digest is Some ==> m.network_secret_digest->0.len() == 32),
{
}

/// Law: what a datagram is read as is a message that the datagram starts with,
/// and it is read as none only where it starts with none.
pub proof fn law_read_only_what_stands_there(bytes: Seq<u8>, m: MessageView)
    ensures
        decoding(bytes) matches Some(read) ==> read.wf() && starts_with(bytes, read.image()),
        decoding(bytes) is None && m.wf() ==> !starts_with(bytes, m.image()),
{
}

} // verus!
