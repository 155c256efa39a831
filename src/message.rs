//! Messages of the Bitcoin P2P protocol that the handshake sends and reads.
//!
//! Encoding and decoding are rust-bitcoin's; this module gives the messages
//! this client sends as plain values, and gives what the handshake reads of
//! a received frame (its kind, the announced protocol version, and the
//! number of bytes it took from the stream).

use bitcoin::consensus::encode;
use bitcoin::io::ErrorKind;
use bitcoin::p2p::message::{NetworkMessage, RawNetworkMessage};
use bitcoin::p2p::message_network::VersionMessage;
use bitcoin::p2p::{Address, Magic, ServiceFlags};
use vstd::prelude::*;

verus! {

/// A network address as the `version` message carries it.
#[derive(Clone, Copy, Debug, PartialEq, Eq)]
pub struct NetAddress {
    /// Services the addressed node offers.
    pub services: u64,
    /// IPv6 address in network order; an IPv4 address is IPv4-mapped.
    pub address: [u16; 8],
    /// Port number.
    pub port: u16,
}

/// The fields of a `version` message that the sender chooses.
///
/// The protocol version announced is the one rust-bitcoin speaks, and the
/// relay flag is left unset.
#[derive(Clone, Debug)]
pub struct VersionFields {
    pub services: u64,
    pub timestamp: i64,
    pub receiver: NetAddress,
    pub sender: NetAddress,
    pub nonce: u64,
    pub user_agent: String,
    pub start_height: i32,
}

/// The payload of a message that this client sends.
#[derive(Clone, Debug)]
pub enum Payload {
    Version(VersionFields),
    Verack,
}

/// A message that this client sends: network magic and payload.
#[derive(Clone, Debug)]
pub struct Message {
    pub magic: [u8; 4],
    pub payload: Payload,
}

/// Mathematical value of a [`VersionFields`].
pub struct VersionModel {
    pub services: u64,
    pub timestamp: i64,
    pub receiver: NetAddress,
    pub sender: NetAddress,
    pub nonce: u64,
    pub user_agent: Seq<char>,
    pub start_height: i32,
}

/// Mathematical value of a [`Payload`].
pub enum PayloadModel {
    Version(VersionModel),
    Verack,
}

/// Mathematical value of a [`Message`].
pub struct MessageModel {
    pub magic: Seq<u8>,
    pub payload: PayloadModel,
}

impl View for VersionFields {
    type V = VersionModel;

    open spec fn view(&self) -> VersionModel {
        VersionModel {
            services: self.services,
            timestamp: self.timestamp,
            receiver: self.receiver,
            sender: self.sender,
            nonce: self.nonce,
            user_agent: self.user_agent@,
            start_height: self.start_height,
        }
    }
}

impl View for Payload {
    type V = PayloadModel;

    open spec fn view(&self) -> PayloadModel {
        match self {
            Payload::Version(v) => PayloadModel::Version(v@),
            Payload::Verack => PayloadModel::Verack,
        }
    }
}

impl View for Message {
    type V = MessageModel;

    open spec fn view(&self) -> MessageModel {
        MessageModel { magic: self.magic@, payload: self.payload@ }
    }
}

/// Longest user agent, in characters, that a message of this library carries.
pub const MAX_USER_AGENT_CHARS: usize = 65536;

impl Message {
    /// The message fits the protocol's length fields.
    pub open spec fn sized(&self) -> bool {
        match self.payload {
            Payload::Version(v) => v.user_agent@.len() <= MAX_USER_AGENT_CHARS,
            Payload::Verack => true,
        }
    }
}

/// The bytes of a message in the Bitcoin wire format (header with magic,
/// command, length and checksum, then the payload).
pub uninterp spec fn wire_bytes(m: MessageModel) -> Seq<u8>;

/// Relies on `bitcoin::consensus::serialize` of a `RawNetworkMessage` built
/// with `RawNetworkMessage::new` and `VersionMessage::new`: the bytes depend
/// on the message alone. `RawNetworkMessage::new` panics only on a payload
/// longer than `u32::MAX` bytes, which `sized` rules out.
#[verifier::external_body]
fn serialize_message(m: &Message) -> (r: Vec<u8>)
    requires
        m.sized(),
    ensures
        r@ == wire_bytes(m@),
{
    let payload = match &m.payload {
        Payload::Verack => NetworkMessage::Verack,
        Payload::Version(v) => NetworkMessage::Version(VersionMessage::new(
            ServiceFlags::from(v.services),
            v.timestamp,
            Address { services: v.receiver.services.into(), address: v.receiver.address, port: v.receiver.port },
            Address { services: v.sender.services.into(), address: v.sender.address, port: v.sender.port },
            v.nonce,
            v.user_agent.clone(),
            v.start_height,
        )),
    };
    encode::serialize(&RawNetworkMessage::new(Magic::from_bytes(m.magic), payload))
}

impl Message {
    /// The message in the Bitcoin wire format.
    pub fn to_bytes(&self) -> (r: Vec<u8>)
        requires
            self.sized(),
        ensures
            r@ == wire_bytes(self@),
    {
        serialize_message(self)
    }
}


/// What the handshake reads of a received message.
#[derive(Clone, Copy, Debug, PartialEq, Eq, Structural)]
pub enum PeerMessage {
    /// A `version` message, with the protocol version that the peer announces.
    Version { version: u32 },
    /// A `verack` message.
    Verack,
    /// Any other message.
    Other,
}

/// One decoded message and the number of bytes it took from the stream.
#[derive(Clone, Copy, Debug, PartialEq, Eq, Structural)]
pub struct Frame {
    pub message: PeerMessage,
    pub consumed: usize,
}

/// The result of decoding one message from the front of a byte sequence.
#[derive(Clone, Copy, Debug, PartialEq, Eq, Structural)]
pub enum Decoded {
    /// A whole message stands at the front.
    Complete(Frame),
    /// The bytes are the start of a message that has not fully arrived.
    Incomplete,
    /// The bytes cannot start a message.
    Malformed,
}

/// What `bitcoin::consensus::deserialize_partial::<RawNetworkMessage>`
/// makes of a byte sequence.
pub uninterp spec fn decode_partial_of(bytes: Seq<u8>) -> Decoded;

/// Size of a message header: magic, command, payload length, checksum.
pub const HEADER_SIZE: usize = 24;

/// The size of the frame that the header at the front of `bytes` announces:
/// the header and the payload length it holds (little-endian, at offset 16).
pub open spec fn declared_frame_len(bytes: Seq<u8>) -> int {
    HEADER_SIZE as int + bytes[16] as int + bytes[17] as int * 0x100 + bytes[18] as int * 0x10000
        + bytes[19] as int * 0x1000000
}

/// `bytes` is exactly one whole message: it decodes taking all of its bytes,
/// as many as its header announces, and no strict prefix of it decodes to
/// anything but `Incomplete`.
pub open spec fn whole_message(bytes: Seq<u8>) -> bool {
    &&& decode_partial_of(bytes) matches Decoded::Complete(f) && f.consumed == bytes.len()
    &&& bytes.len() >= HEADER_SIZE && declared_frame_len(bytes) == bytes.len()
    &&& forall|k: int| 0 <= k < bytes.len() ==> #[trigger] decode_partial_of(bytes.take(k)) == Decoded::Incomplete
}

/// Relies on `bitcoin::consensus::deserialize_partial::<RawNetworkMessage>`:
/// the outcome depends on the bytes alone. A message is read field by field
/// with `read_exact` from a cursor over `bytes`: magic, command, payload
/// length, checksum, then as many payload bytes as the length says, so on
/// success the count is the header's 24 bytes plus that length, and cutting
/// the bytes anywhere before that count makes a read run out, which is an
/// I/O error of kind `UnexpectedEof`.
#[verifier::external_body]
fn deserialize_partial(bytes: &[u8]) -> (r: Decoded)
    ensures
        r == decode_partial_of(bytes@),
        r matches Decoded::Complete(f) ==> f.consumed <= bytes@.len(),
        r matches Decoded::Complete(f) ==> bytes@.len() >= HEADER_SIZE && f.consumed == declared_frame_len(bytes@),
        r matches Decoded::Complete(f) ==> forall|k: int|
            0 <= k < f.consumed ==> #[trigger] decode_partial_of(bytes@.take(k)) == Decoded::Incomplete,
{
    match encode::deserialize_partial::<RawNetworkMessage>(bytes) {
        Ok((raw, consumed)) => Decoded::Complete(Frame { consumed, message: match raw.payload() {
            NetworkMessage::Version(v) => PeerMessage::Version { version: v.version },
            NetworkMessage::Verack => PeerMessage::Verack,
            _ => PeerMessage::Other,
        } }),
        Err(encode::Error::Io(e)) if e.kind() == ErrorKind::UnexpectedEof => Decoded::Incomplete,
        Err(_) => Decoded::Malformed,
    }
}

/// Decodes one message from the front of `bytes`.
pub fn decode_partial(bytes: &[u8]) -> (r: Decoded)
    ensures
        r == decode_partial_of(bytes@),
        r matches Decoded::Complete(f) ==> f.consumed <= bytes@.len(),
        r matches Decoded::Complete(f) ==> bytes@.len() >= HEADER_SIZE && f.consumed == declared_frame_len(bytes@),
        r matches Decoded::Complete(f) && f.consumed == bytes@.len() ==> whole_message(bytes@),
{
    let r = deserialize_partial(bytes);
    proof {
        if let Decoded::Complete(f) = r {
            if f.consumed == bytes@.len() {
                assert forall|k: int| 0 <= k < bytes@.len() implies #[trigger] decode_partial_of(bytes@.take(k))
                    == Decoded::Incomplete by {
                    assert(k < f.consumed);
                }
            }
        }
    }
    r
}

/// Magic bytes of the Bitcoin main network.
pub open spec fn mainnet_magic() -> Seq<u8> {
    seq![0xf9u8, 0xbeu8, 0xb4u8, 0xd9u8]
}

/// Relies on `bitcoin::Network::magic` of `Network::Bitcoin`, which is
/// `Magic::BITCOIN`, the bytes F9 BE B4 D9.
#[verifier::external_body]
fn bitcoin_network_magic() -> (r: [u8; 4])
    ensures
        r@ == mainnet_magic(),
{
    bitcoin::Network::Bitcoin.magic().to_bytes()
}

/// Relies on `std::time::SystemTime::now` and `duration_since(UNIX_EPOCH)`:
/// whole seconds since the Unix epoch, or `None` for a clock set before it.
#[verifier::external_body]
fn seconds_since_epoch() -> (r: Option<u64>)
{
    match std::time::SystemTime::now().duration_since(std::time::UNIX_EPOCH) {
        Ok(elapsed) => Some(elapsed.as_secs()),
        Err(_) => None,
    }
}

/// User agent that this client announces.
pub open spec fn client_user_agent() -> Seq<char> {
    "/Satoshi:26.0.0/"@
}

/// The placeholder address `0.0.0.0:0` with no services, IPv4-mapped.
pub open spec fn placeholder_address() -> NetAddress {
    NetAddress { services: 0, address: [0u16, 0u16, 0u16, 0u16, 0u16, 0xffffu16, 0u16, 0u16], port: 0 }
}

/// The `version` fields this client sends at time `timestamp`: no services,
/// placeholder addresses, the timestamp again as nonce, this client's user
/// agent and a start height of zero.
pub open spec fn default_version(timestamp: i64) -> VersionModel {
    VersionModel {
        services: 0,
        timestamp,
        receiver: placeholder_address(),
        sender: placeholder_address(),
        nonce: timestamp as u64,
        user_agent: client_user_agent(),
        start_height: 0,
    }
}

/// Builds the messages that this client sends.
pub struct BitcoinMessage;

/// The timestamp of a `version` message for a clock reading of `seconds`
/// whole seconds since the Unix epoch: the reading, capped at `i64::MAX`,
/// or zero when the clock reads before the epoch (`None`).
pub open spec fn timestamp_of(seconds: Option<u64>) -> i64 {
    match seconds {
        Some(s) => if s <= i64::MAX as u64 { s as i64 } else { i64::MAX },
        None => 0,
    }
}

impl BitcoinMessage {
    /// The fields of this client's `version` message for the clock reading
    /// `seconds`.
    pub fn version_fields_at(seconds: Option<u64>) -> (r: VersionFields)
        ensures
            r@ == default_version(timestamp_of(seconds)),
    {
        let seconds: u64 = match seconds {
            Some(s) => s,
            None => 0,
        };
        let timestamp: i64 = if seconds <= i64::MAX as u64 { seconds as i64 } else { i64::MAX };
        let placeholder = NetAddress { services: 0, address: [0u16, 0, 0, 0, 0, 0xffff, 0, 0], port: 0 };
        let user_agent = String::from_str("/Satoshi:26.0.0/");
        proof {
            reveal_strlit("/Satoshi:26.0.0/");
        }
        VersionFields {
            services: 0,
            timestamp,
            receiver: placeholder,
            sender: placeholder,
            nonce: timestamp as u64,
            user_agent,
            start_height: 0,
        }
    }

    /// The fields of this client's `version` message, stamped with the
    /// current time.
    pub fn get_bitcoin_version_message() -> (r: VersionFields)
        ensures
            r@ == default_version(r.timestamp),
            r.timestamp >= 0,
    {
        BitcoinMessage::version_fields_at(seconds_since_epoch())
    }

    /// This client's `version` message on the Bitcoin main network for the
    /// clock reading `seconds`.
    pub fn version_message_at(seconds: Option<u64>) -> (r: Message)
        ensures
            r@ == (MessageModel {
                magic: mainnet_magic(),
                payload: PayloadModel::Version(default_version(timestamp_of(seconds))),
            }),
            r.sized(),
    {
        let fields = BitcoinMessage::version_fields_at(seconds);
        proof {
            reveal_strlit("/Satoshi:26.0.0/");
        }
        Message { magic: bitcoin_network_magic(), payload: Payload::Version(fields) }
    }

    /// This client's `version` message on the Bitcoin main network, stamped
    /// with the current time.
    pub fn version_message() -> (r: Message)
        ensures
            r.magic@ == mainnet_magic(),
            r.payload matches Payload::Version(v) && v@ == default_version(v.timestamp) && v.timestamp >= 0,
            r.sized(),
    {
        BitcoinMessage::version_message_at(seconds_since_epoch())
    }

    /// A `verack` message on the Bitcoin main network.
    pub fn verack_message() -> (r: Message)
        ensures
            r@ == (MessageModel { magic: mainnet_magic(), payload: PayloadModel::Verack }),
            r.sized(),
    {
        Message { magic: bitcoin_network_magic(), payload: Payload::Verack }
    }
}

} // verus!
