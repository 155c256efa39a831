use p2p_handshake_bitcoin::client::BitcoinClientError;
use p2p_handshake_bitcoin::client_pool::{BitcoinClientPool, HandshakeOutcome, UnitResult};
use p2p_handshake_bitcoin::parser_arguments::{Arguments, DEFAULT_TIMEOUT_MS};

fn nodes() -> Vec<String> {
    vec!["127.0.0.1:1".to_string(), "127.0.0.1:2".to_string(), "127.0.0.1:3".to_string()]
}

#[test]
fn one_unreachable_node_does_not_affect_the_others() {
    let pool = BitcoinClientPool::new(nodes(), 500);
    let units = vec![UnitResult::Completed, UnitResult::ConnectFailed, UnitResult::Completed];
    let reports = pool.report(&units);
    assert_eq!(reports.len(), 3);
    assert_eq!(reports[0].node, "127.0.0.1:1");
    assert_eq!(reports[0].outcome, HandshakeOutcome::Completed);
    assert_eq!(reports[1].node, "127.0.0.1:2");
    assert_eq!(reports[1].outcome, HandshakeOutcome::ConnectError);
    assert_eq!(reports[2].node, "127.0.0.1:3");
    assert_eq!(reports[2].outcome, HandshakeOutcome::Completed);
    assert_eq!(reports.iter().filter(|r| r.outcome.is_success()).count(), 2);
}

#[test]
fn every_unit_result_has_its_outcome() {
    let pool = BitcoinClientPool::new(vec!["a:1".to_string(); 5], 10);
    let units = vec![
        UnitResult::Completed,
        UnitResult::Failed(BitcoinClientError::CommunicationError),
        UnitResult::Failed(BitcoinClientError::MessageError),
        UnitResult::ConnectFailed,
        UnitResult::Aborted,
    ];
    let outcomes: Vec<HandshakeOutcome> = pool.report(&units).into_iter().map(|r| r.outcome).collect();
    assert_eq!(
        outcomes,
        vec![
            HandshakeOutcome::Completed,
            HandshakeOutcome::CommunicationError,
            HandshakeOutcome::MessageError,
            HandshakeOutcome::ConnectError,
            HandshakeOutcome::TaskFailed,
        ]
    );
}

#[test]
fn all_nodes_failing_still_reports_each() {
    let pool = BitcoinClientPool::new(nodes(), 500);
    let units = vec![UnitResult::ConnectFailed; 3];
    let reports = pool.report(&units);
    assert!(reports.iter().all(|r| r.outcome == HandshakeOutcome::ConnectError));
    assert_eq!(reports.len(), 3);
}

#[test]
fn pool_keeps_nodes_and_timeout() {
    let pool = BitcoinClientPool::new(nodes(), 750);
    assert_eq!(pool.nodes(), &nodes());
    assert_eq!(pool.timeout(), 750);
    let empty = BitcoinClientPool::new(Vec::new(), DEFAULT_TIMEOUT_MS);
    assert!(empty.report(&Vec::new()).is_empty());
    let arguments = Arguments { uri_nodes: nodes(), timeout: DEFAULT_TIMEOUT_MS };
    assert_eq!(arguments.timeout, 500);
}

#[test]
fn outcome_descriptions_differ() {
    let all = [
        HandshakeOutcome::Completed,
        HandshakeOutcome::CommunicationError,
        HandshakeOutcome::MessageError,
        HandshakeOutcome::ConnectError,
        HandshakeOutcome::TaskFailed,
    ];
    for (i, a) in all.iter().enumerate() {
        for b in &all[i + 1..] {
            assert_ne!(a.to_string(), b.to_string());
        }
    }
}
