use bitcoin::consensus::serialize;
use bitcoin::p2p::message::{NetworkMessage, RawNetworkMessage};
use bitcoin::p2p::message_network::VersionMessage;
use bitcoin::p2p::{Address, Magic, ServiceFlags};
use p2p_handshake_bitcoin::client::{BitcoinClient, BitcoinClientError, HandshakeState, HandshakeStep};
use p2p_handshake_bitcoin::message::{BitcoinMessage, Frame, PeerMessage};

fn peer_version(version: u32) -> Vec<u8> {
    let zero = "0.0.0.0:0".parse().unwrap();
    let mut message = VersionMessage::new(
        ServiceFlags::NONE,
        1_700_000_000,
        Address::new(&zero, ServiceFlags::NONE),
        Address::new(&zero, ServiceFlags::NONE),
        1_700_000_000,
        "/Satoshi:26.0.0/".to_string(),
        0,
    );
    message.version = version;
    serialize(&RawNetworkMessage::new(Magic::BITCOIN, NetworkMessage::Version(message)))
}

fn peer_verack() -> Vec<u8> {
    serialize(&RawNetworkMessage::new(Magic::BITCOIN, NetworkMessage::Verack))
}

/// Runs a handshake against a peer whose reads deliver `reads` in order,
/// then report a closed stream. Returns the last step and what was written.
fn run(reads: Vec<Vec<u8>>) -> (HandshakeStep, Vec<Vec<u8>>) {
    let mut client = BitcoinClient::new(&BitcoinMessage::version_message());
    let mut reads = reads.into_iter();
    let mut written = Vec::new();
    let mut step = client.next_step();
    loop {
        step = match step {
            HandshakeStep::SendVersion => {
                written.push(client.version_bytes().to_vec());
                client.on_written()
            }
            HandshakeStep::SendVerack => {
                written.push(client.verack_bytes().to_vec());
                client.on_written()
            }
            HandshakeStep::Receive => {
                let chunk = reads.next().unwrap_or_default();
                client.on_received(&chunk)
            }
            done => return (done, written),
        }
    }
}

#[test]
fn bitcoin_client_bitcoin_node_responds_with_version_and_verack_message() {
    let (step, written) = run(vec![peer_version(70001), peer_verack()]);
    assert_eq!(step, HandshakeStep::Completed);
    assert_eq!(written.len(), 2);
    assert_eq!(written[0].len(), 126);
    assert_eq!(written[1], peer_verack());
    assert_eq!(written[1].len(), 24);
}

#[test]
fn bitcoin_client_bitcoin_node_responds_with_bad_u8_slice() {
    let (step, written) = run(vec![vec![1, 2, 3]]);
    assert_eq!(step, HandshakeStep::Failed(BitcoinClientError::CommunicationError));
    assert_eq!(written.len(), 1);
}

#[test]
fn bitcoin_node_responds_with_verack_message_on_version_message() {
    let (step, written) = run(vec![peer_verack()]);
    assert_eq!(step, HandshakeStep::Failed(BitcoinClientError::MessageError));
    assert_eq!(written.len(), 1);
}

#[test]
fn bitcoin_client_bitcoin_node_responds_with_malicious_version() {
    let (step, _) = run(vec![peer_version(99)]);
    assert_eq!(step, HandshakeStep::Failed(BitcoinClientError::MessageError));
}

#[test]
fn bitcoin_node_responds_with_version_message_on_verack_message() {
    let (step, written) = run(vec![peer_version(70001), peer_version(70001)]);
    assert_eq!(step, HandshakeStep::Failed(BitcoinClientError::MessageError));
    assert_eq!(written.len(), 2);
}

#[test]
fn version_gate_rejects_6999_and_accepts_7000() {
    let (step, _) = run(vec![peer_version(6999)]);
    assert_eq!(step, HandshakeStep::Failed(BitcoinClientError::MessageError));
    let (step, _) = run(vec![peer_version(7000), peer_verack()]);
    assert_eq!(step, HandshakeStep::Completed);
}

#[test]
fn verify_version_message_checks_size_kind_and_version() {
    let client = BitcoinClient::new(&BitcoinMessage::version_message());
    let ok = Frame { message: PeerMessage::Version { version: 7000 }, consumed: 126 };
    assert_eq!(client.verify_version_message(&ok), Ok(()));
    let old = Frame { message: PeerMessage::Version { version: 6999 }, consumed: 126 };
    assert_eq!(client.verify_version_message(&old), Err(BitcoinClientError::MessageError));
    let long = Frame { message: PeerMessage::Version { version: 70001 }, consumed: 127 };
    assert_eq!(client.verify_version_message(&long), Err(BitcoinClientError::MessageError));
    let verack = Frame { message: PeerMessage::Verack, consumed: 126 };
    assert_eq!(client.verify_version_message(&verack), Err(BitcoinClientError::MessageError));
}

#[test]
fn verack_size_gate_rejects_other_sizes() {
    let client = BitcoinClient::new(&BitcoinMessage::verack_message());
    let ok = Frame { message: PeerMessage::Verack, consumed: 24 };
    assert_eq!(client.verify_verack_message(&ok), Ok(()));
    for consumed in [0usize, 23, 25, 126] {
        let frame = Frame { message: PeerMessage::Verack, consumed };
        assert_eq!(client.verify_verack_message(&frame), Err(BitcoinClientError::MessageError));
    }
    let other = Frame { message: PeerMessage::Other, consumed: 24 };
    assert_eq!(client.verify_verack_message(&other), Err(BitcoinClientError::MessageError));
}

#[test]
fn handshake_tolerates_byte_by_byte_delivery() {
    let mut reads: Vec<Vec<u8>> = peer_version(70001).into_iter().map(|b| vec![b]).collect();
    reads.extend(peer_verack().into_iter().map(|b| vec![b]));
    let (step, _) = run(reads);
    assert_eq!(step, HandshakeStep::Completed);
}

#[test]
fn handshake_takes_both_replies_from_one_read() {
    let mut both = peer_version(70001);
    both.extend(peer_verack());
    let (step, _) = run(vec![both]);
    assert_eq!(step, HandshakeStep::Completed);
}

#[test]
fn peer_closing_before_reply_is_a_communication_error() {
    let (step, _) = run(vec![]);
    assert_eq!(step, HandshakeStep::Failed(BitcoinClientError::CommunicationError));
    let (step, _) = run(vec![peer_version(70001)]);
    assert_eq!(step, HandshakeStep::Failed(BitcoinClientError::CommunicationError));
}

#[test]
fn corrupted_reply_is_a_communication_error() {
    let mut bytes = peer_version(70001);
    let last = bytes.len() - 1;
    bytes[last] ^= 0xff;
    let (step, _) = run(vec![bytes]);
    assert_eq!(step, HandshakeStep::Failed(BitcoinClientError::CommunicationError));
}

#[test]
fn io_failure_fails_the_handshake_and_the_state_stays() {
    let mut client = BitcoinClient::new(&BitcoinMessage::version_message());
    assert_eq!(client.state(), HandshakeState::Idle);
    let step = client.on_io_failure();
    assert_eq!(step, HandshakeStep::Failed(BitcoinClientError::CommunicationError));
    assert_eq!(client.on_written(), step);
    assert_eq!(client.on_received(&peer_version(70001)), step);
    assert_eq!(client.state(), HandshakeState::Failed(BitcoinClientError::CommunicationError));
}

#[test]
fn states_follow_the_exchange() {
    let mut client = BitcoinClient::new(&BitcoinMessage::version_message());
    assert_eq!(client.next_step(), HandshakeStep::SendVersion);
    assert_eq!(client.on_written(), HandshakeStep::Receive);
    assert_eq!(client.state(), HandshakeState::VersionSent);
    assert_eq!(client.on_received(&peer_version(70015)), HandshakeStep::SendVerack);
    assert_eq!(client.state(), HandshakeState::VersionValidated);
    assert_eq!(client.on_written(), HandshakeStep::Receive);
    assert_eq!(client.state(), HandshakeState::VerackSent);
    assert_eq!(client.on_received(&peer_verack()), HandshakeStep::Completed);
    assert_eq!(client.state(), HandshakeState::Completed);
}

#[test]
fn error_descriptions() {
    assert_eq!(
        BitcoinClientError::CommunicationError.to_string(),
        "Communication error: Wrong response"
    );
    assert_eq!(
        BitcoinClientError::MessageError.to_string(),
        "Message error: Returned message content is not valid"
    );
}
