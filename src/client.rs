//! The handshake state machine.
//!
//! A [`BitcoinClient`] drives one connection through the exchange
//! `Idle -> VersionSent -> VersionValidated -> VerackSent -> Completed`,
//! with `Failed` reachable from every step. It performs no I/O itself: each
//! method takes what the last I/O operation came to and returns the next
//! [`HandshakeStep`] for the caller to perform.

use crate::connection::{receive_step, read_step, Connection, ReadStep, MAX_BUFFERED};
use crate::message::{wire_bytes, Frame, Message, MessageModel, PayloadModel, PeerMessage};
use vstd::prelude::*;

verus! {

/// Why a handshake failed after the connection was established.
#[derive(Clone, Copy, Debug, PartialEq, Eq, Structural)]
pub enum BitcoinClientError {
    /// Sending or receiving failed, or the stream ended without a whole
    /// message where one was expected.
    CommunicationError,
    /// A whole message arrived but the protocol does not accept it here.
    MessageError,
}

impl BitcoinClientError {
    /// A sentence that describes the error.
    pub fn to_string(&self) -> (r: String)
        ensures
            r@ == match self {
                BitcoinClientError::CommunicationError => "Communication error: Wrong response"@,
                BitcoinClientError::MessageError => "Message error: Returned message content is not valid"@,
            },
    {
        match self {
            BitcoinClientError::CommunicationError => String::from_str("Communication error: Wrong response"),
            BitcoinClientError::MessageError => String::from_str("Message error: Returned message content is not valid"),
        }
    }
}

/// Where a handshake stands.
#[derive(Clone, Copy, Debug, PartialEq, Eq, Structural)]
pub enum HandshakeState {
    /// Nothing sent yet.
    Idle,
    /// Our `version` was sent; the peer's `version` is awaited.
    VersionSent,
    /// The peer's `version` was accepted; our `verack` is to be sent.
    VersionValidated,
    /// Our `verack` was sent; the peer's `verack` is awaited.
    VerackSent,
    /// The handshake succeeded.
    Completed,
    /// The handshake failed.
    Failed(BitcoinClientError),
}

/// What the caller is to do next.
#[derive(Clone, Copy, Debug, PartialEq, Eq, Structural)]
pub enum HandshakeStep {
    /// Write the whole of [`BitcoinClient::version_bytes`] to the peer.
    SendVersion,
    /// Write the whole of [`BitcoinClient::verack_bytes`] to the peer.
    SendVerack,
    /// Read once from the peer.
    Receive,
    /// The handshake is over and succeeded.
    Completed,
    /// The handshake is over and failed.
    Failed(BitcoinClientError),
}

/// Lowest protocol version accepted from a peer.
pub const MIN_PEER_VERSION: u32 = 7000;

/// Size of a `verack` frame: a header with an empty payload.
pub const VERACK_FRAME_SIZE: usize = 24;

/// The peer's `version` frame is accepted: it is a `version` message of
/// `expected_size` bytes that announces at least `MIN_PEER_VERSION`.
pub open spec fn version_accepted(frame: Frame, expected_size: nat) -> bool {
    &&& frame.consumed == expected_size
    &&& frame.message matches PeerMessage::Version { version } && version >= MIN_PEER_VERSION
}

/// The peer's `verack` frame is accepted: it is a `verack` message of
/// `VERACK_FRAME_SIZE` bytes.
pub open spec fn verack_accepted(frame: Frame) -> bool {
    frame.consumed == VERACK_FRAME_SIZE && frame.message == PeerMessage::Verack
}

/// What the caller is to do in state `s`.
pub open spec fn step_for(s: HandshakeState) -> HandshakeStep {
    match s {
        HandshakeState::Idle => HandshakeStep::SendVersion,
        HandshakeState::VersionSent => HandshakeStep::Receive,
        HandshakeState::VersionValidated => HandshakeStep::SendVerack,
        HandshakeState::VerackSent => HandshakeStep::Receive,
        HandshakeState::Completed => HandshakeStep::Completed,
        HandshakeState::Failed(e) => HandshakeStep::Failed(e),
    }
}

/// The state awaits a message from the peer.
pub open spec fn awaits_message(s: HandshakeState) -> bool {
    s == HandshakeState::VersionSent || s == HandshakeState::VerackSent
}

/// The state awaits the end of a write.
pub open spec fn awaits_write(s: HandshakeState) -> bool {
    s == HandshakeState::Idle || s == HandshakeState::VersionValidated
}

/// The state after a read step `r` in state `s`, which awaits a message;
/// `version_size` is the size of our own `version` frame, which the peer's
/// must match.
pub open spec fn after_read(s: HandshakeState, r: ReadStep, version_size: nat) -> HandshakeState {
    match r {
        ReadStep::NeedBytes => s,
        ReadStep::Message(frame) => if s == HandshakeState::VersionSent {
            if version_accepted(frame, version_size) {
                HandshakeState::VersionValidated
            } else {
                HandshakeState::Failed(BitcoinClientError::MessageError)
            }
        } else if verack_accepted(frame) {
            HandshakeState::Completed
        } else {
            HandshakeState::Failed(BitcoinClientError::MessageError)
        },
        _ => HandshakeState::Failed(BitcoinClientError::CommunicationError),
    }
}

/// Mathematical value of a [`BitcoinClient`].
pub struct ClientModel {
    pub state: HandshakeState,
    /// Bytes received and not yet taken by a message.
    pub buffered: Seq<u8>,
    /// Our `version` frame.
    pub version: Seq<u8>,
    /// Our `verack` frame.
    pub verack: Seq<u8>,
}

/// The client after a write that it asked for succeeded: the next state
/// awaits a message, which is first looked for among the bytes buffered.
pub open spec fn after_written(c: ClientModel) -> ClientModel {
    if awaits_write(c.state) {
        let sent = if c.state == HandshakeState::Idle {
            HandshakeState::VersionSent
        } else {
            HandshakeState::VerackSent
        };
        let (buffered, r) = read_step(c.buffered);
        ClientModel { state: after_read(sent, r, c.version.len()), buffered, ..c }
    } else {
        c
    }
}

/// The client after one read from the peer returned `chunk`.
pub open spec fn after_received(c: ClientModel, chunk: Seq<u8>) -> ClientModel {
    if awaits_message(c.state) {
        if c.buffered.len() + chunk.len() > MAX_BUFFERED {
            ClientModel { state: HandshakeState::Failed(BitcoinClientError::CommunicationError), ..c }
        } else {
            let (buffered, r) = receive_step(c.buffered, chunk);
            ClientModel { state: after_read(c.state, r, c.version.len()), buffered, ..c }
        }
    } else {
        c
    }
}

/// The client after the I/O operation it asked for failed.
pub open spec fn after_io_failure(c: ClientModel) -> ClientModel {
    if awaits_write(c.state) || awaits_message(c.state) {
        ClientModel { state: HandshakeState::Failed(BitcoinClientError::CommunicationError), ..c }
    } else {
        c
    }
}

/// Client side of the handshake with one peer.
pub struct BitcoinClient {
    connection: Connection,
    state: HandshakeState,
    version: Vec<u8>,
    verack: Vec<u8>,
}

impl View for BitcoinClient {
    type V = ClientModel;

    closed spec fn view(&self) -> ClientModel {
        ClientModel {
            state: self.state,
            buffered: self.connection@,
            version: self.version@,
            verack: self.verack@,
        }
    }
}

impl BitcoinClient {
    /// A client in state `Idle` that will send `version`, and a `verack` on
    /// the same network.
    pub fn new(version: &Message) -> (r: BitcoinClient)
        requires
            version.sized(),
        ensures
            r@.state == HandshakeState::Idle,
            r@.buffered == Seq::<u8>::empty(),
            r@.version == wire_bytes(version@),
            r@.verack == wire_bytes(MessageModel { magic: version@.magic, payload: PayloadModel::Verack }),
    {
        let verack = Message { magic: version.magic, payload: crate::message::Payload::Verack };
        BitcoinClient {
            connection: Connection::new(),
            state: HandshakeState::Idle,
            version: version.to_bytes(),
            verack: verack.to_bytes(),
        }
    }

    /// Where the handshake stands.
    pub fn state(&self) -> (r: HandshakeState)
        ensures
            r == self@.state,
    {
        self.state
    }

    /// What the caller is to do next.
    pub fn next_step(&self) -> (r: HandshakeStep)
        ensures
            r == step_for(self@.state),
    {
        match self.state {
            HandshakeState::Idle => HandshakeStep::SendVersion,
            HandshakeState::VersionSent => HandshakeStep::Receive,
            HandshakeState::VersionValidated => HandshakeStep::SendVerack,
            HandshakeState::VerackSent => HandshakeStep::Receive,
            HandshakeState::Completed => HandshakeStep::Completed,
            HandshakeState::Failed(e) => HandshakeStep::Failed(e),
        }
    }

    /// Our `version` frame.
    pub fn version_bytes(&self) -> (r: &[u8])
        ensures
            r@ == self@.version,
    {
        self.version.as_slice()
    }

    /// Our `verack` frame.
    pub fn verack_bytes(&self) -> (r: &[u8])
        ensures
            r@ == self@.verack,
    {
        self.verack.as_slice()
    }

    /// Checks the peer's `version` frame against our own `version` frame's
    /// size and the lowest accepted protocol version.
    pub fn verify_version_message(&self, frame: &Frame) -> (r: Result<(), BitcoinClientError>)
        ensures
            r == if version_accepted(*frame, self@.version.len()) {
                Ok::<(), BitcoinClientError>(())
            } else {
                Err(BitcoinClientError::MessageError)
            },
    {
        if frame.consumed != self.version.len() {
            return Err(BitcoinClientError::MessageError);
        }
        match frame.message {
            PeerMessage::Version { version } => if version < MIN_PEER_VERSION {
                Err(BitcoinClientError::MessageError)
            } else {
                Ok(())
            },
            _ => Err(BitcoinClientError::MessageError),
        }
    }

    /// Checks the peer's `verack` frame.
    pub fn verify_verack_message(&self, frame: &Frame) -> (r: Result<(), BitcoinClientError>)
        ensures
            r == if verack_accepted(*frame) {
                Ok::<(), BitcoinClientError>(())
            } else {
                Err(BitcoinClientError::MessageError)
            },
    {
        if frame.consumed != VERACK_FRAME_SIZE {
            return Err(BitcoinClientError::MessageError);
        }
        match frame.message {
            PeerMessage::Verack => Ok(()),
            _ => Err(BitcoinClientError::MessageError),
        }
    }

    fn take_read_step(&mut self, r: ReadStep)
        requires
            awaits_message(old(self)@.state),
        ensures
            final(self)@ == (ClientModel { state: after_read(old(self)@.state, r, old(self)@.version.len()), ..old(self)@ }),
    {
        match r {
            ReadStep::NeedBytes => {},
            ReadStep::Message(frame) => {
                let checked = if self.state == HandshakeState::VersionSent {
                    self.verify_version_message(&frame)
                } else {
                    self.verify_verack_message(&frame)
                };
                self.state = match checked {
                    Ok(()) => if self.state == HandshakeState::VersionSent {
                        HandshakeState::VersionValidated
                    } else {
                        HandshakeState::Completed
                    },
                    Err(e) => HandshakeState::Failed(e),
                };
            },
            _ => {
                self.state = HandshakeState::Failed(BitcoinClientError::CommunicationError);
            },
        }
    }

    /// The write asked for last succeeded.
    pub fn on_written(&mut self) -> (r: HandshakeStep)
        ensures
            final(self)@ == after_written(old(self)@),
            r == step_for(final(self)@.state),
    {
        if self.state == HandshakeState::Idle || self.state == HandshakeState::VersionValidated {
            self.state = if self.state == HandshakeState::Idle {
                HandshakeState::VersionSent
            } else {
                HandshakeState::VerackSent
            };
            let r = self.connection.read();
            self.take_read_step(r);
        }
        self.next_step()
    }

    /// One read from the peer returned `chunk`; an empty chunk means that
    /// the peer closed the stream.
    pub fn on_received(&mut self, chunk: &[u8]) -> (r: HandshakeStep)
        ensures
            final(self)@ == after_received(old(self)@, chunk@),
            r == step_for(final(self)@.state),
    {
        if self.state == HandshakeState::VersionSent || self.state == HandshakeState::VerackSent {
            let buffered = self.connection.buffered_len();
            if buffered > MAX_BUFFERED || chunk.len() > MAX_BUFFERED - buffered {
                self.state = HandshakeState::Failed(BitcoinClientError::CommunicationError);
            } else {
                let r = self.connection.receive(chunk);
                self.take_read_step(r);
            }
        }
        self.next_step()
    }

    /// The I/O operation asked for last failed.
    pub fn on_io_failure(&mut self) -> (r: HandshakeStep)
        ensures
            final(self)@ == after_io_failure(old(self)@),
            r == step_for(final(self)@.state),
    {
        if self.state != HandshakeState::Completed && !(self.state matches HandshakeState::Failed(_)) {
            self.state = HandshakeState::Failed(BitcoinClientError::CommunicationError);
        }
        self.next_step()
    }
}


/// Version gate: a correctly sized `version` frame from the peer is
/// accepted exactly when it announces at least protocol version 7000; one
/// that announces 6999 fails the handshake with `MessageError`, one that
/// announces 7000 moves it on to sending `verack`.
pub proof fn lemma_version_gate(version: u32, version_size: nat)
    requires
        version_size <= usize::MAX,
    ensures
        ({
            let frame = Frame { message: PeerMessage::Version { version }, consumed: version_size as usize };
            &&& version_accepted(frame, version_size) <==> version >= 7000
            &&& after_read(HandshakeState::VersionSent, ReadStep::Message(frame), version_size) == if version >= 7000 {
                HandshakeState::VersionValidated
            } else {
                HandshakeState::Failed(BitcoinClientError::MessageError)
            }
        }),
{
}

/// Verack size gate: a `verack` frame from the peer whose byte count is not
/// the size of a `verack` frame fails the handshake with `MessageError`.
pub proof fn lemma_verack_size_gate(frame: Frame, version_size: nat)
    requires
        frame.consumed != VERACK_FRAME_SIZE,
    ensures
        !verack_accepted(frame),
        after_read(HandshakeState::VerackSent, ReadStep::Message(frame), version_size)
            == HandshakeState::Failed(BitcoinClientError::MessageError),
{
}

/// No step is retried or taken twice: once completed or failed, a handshake
/// stays as it is whatever happens next.
pub proof fn lemma_outcome_is_final(c: ClientModel, chunk: Seq<u8>)
    requires
        c.state == HandshakeState::Completed || c.state matches HandshakeState::Failed(_),
    ensures
        after_written(c) == c,
        after_received(c, chunk) == c,
        after_io_failure(c) == c,
{
}

} // verus!
