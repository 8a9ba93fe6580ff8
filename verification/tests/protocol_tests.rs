use udp_tracker::connection::ConnectionManager;
use udp_tracker::connection::ConnectionState;
use udp_tracker::correlator::Correlator;
use udp_tracker::correlator::WaitStep;
use udp_tracker::correlator::timeout_for_attempt;
use udp_tracker::errors::TrackerError;
use udp_tracker::messages::Action;

fn datagram(action: u32, transaction_id: u32, tail: &[u8]) -> Vec<u8> {
    let mut buf: Vec<u8> = Vec::new();
    buf.extend_from_slice(&action.to_be_bytes());
    buf.extend_from_slice(&transaction_id.to_be_bytes());
    buf.extend_from_slice(tail);
    buf
}

#[test]
fn never_responding_transport_times_out_after_eight_attempts() {
    let mut c = Correlator::new(424242, Action::Connect);
    let mut timeouts: Vec<u64> = vec![c.current_timeout()];
    loop {
        match c.on_timeout() {
            WaitStep::SendAgain { timeout_seconds } => timeouts.push(timeout_seconds),
            WaitStep::Failed { error } => {
                assert_eq!(error, TrackerError::Timeout);
                break;
            }
            other => panic!("unexpected step: {:?}", other),
        }
    }
    assert_eq!(timeouts, vec![15, 30, 60, 120, 240, 480, 960, 1920]);
}

#[test]
fn per_attempt_timeouts_follow_the_schedule() {
    for (n, want) in [(0u8, 15u64), (1, 30), (2, 60), (3, 120), (4, 240), (5, 480), (6, 960), (7, 1920)] {
        assert_eq!(timeout_for_attempt(n), want);
    }
}

#[test]
fn stray_transaction_id_does_not_satisfy_the_wait() {
    let mut c = Correlator::new(1000, Action::Connect);
    let before = c;

    let stray = datagram(0, 2000, &[0u8; 8]);
    assert_eq!(c.on_datagram(stray), WaitStep::KeepWaiting);
    assert_eq!(c, before);

    let good = datagram(0, 1000, &[0u8; 8]);
    match c.on_datagram(good.clone()) {
        WaitStep::Matched { payload } => assert_eq!(payload, good),
        other => panic!("unexpected step: {:?}", other),
    }
}

#[test]
fn matching_id_under_wrong_action_is_discarded() {
    let mut c = Correlator::new(1000, Action::Announce);
    let wrong_action = datagram(0, 1000, &[0u8; 8]);
    assert_eq!(c.on_datagram(wrong_action), WaitStep::KeepWaiting);
}

#[test]
fn tracker_error_response_rejects_immediately() {
    let mut c = Correlator::new(1000, Action::Announce);
    let rejection = datagram(3, 1000, b"connection id expired");
    match c.on_datagram(rejection) {
        WaitStep::Failed { error: TrackerError::TrackerRejected(msg) } => {
            assert_eq!(msg, b"connection id expired".to_vec());
        }
        other => panic!("unexpected step: {:?}", other),
    }
}

#[test]
fn cancellation_surfaces_cancelled() {
    let c = Correlator::new(1, Action::Connect);
    assert_eq!(c.on_cancel(), WaitStep::Failed { error: TrackerError::Cancelled });
}

#[test]
fn undecodable_datagram_is_discarded() {
    let mut c = Correlator::new(1, Action::Connect);
    assert_eq!(c.on_datagram(vec![1, 2, 3]), WaitStep::KeepWaiting);
}

#[test]
fn connection_id_expires_at_sixty_seconds() {
    let t0: u64 = 10_000;
    let mut mgr = ConnectionManager::new();
    assert_eq!(mgr.current_id(t0), None);
    assert!(mgr.needs_handshake(t0));

    mgr.note_connected(0xFEED, t0);
    assert_eq!(mgr.current_id(t0), Some(0xFEED));
    assert_eq!(mgr.current_id(t0 + 59), Some(0xFEED));
    assert!(!mgr.needs_handshake(t0 + 59));
    assert_eq!(mgr.current_id(t0 + 60), None);
    assert!(mgr.needs_handshake(t0 + 60));
    assert_eq!(mgr.current_id(t0 + 61), None);
    assert!(mgr.needs_handshake(t0 + 61));
}

#[test]
fn invalidate_discards_the_connection() {
    let mut mgr = ConnectionManager::new();
    mgr.note_connected(7, 100);
    assert_eq!(mgr.state, ConnectionState::Connected { connection_id: 7, acquired_at: 100 });
    mgr.invalidate();
    assert_eq!(mgr.state, ConnectionState::Unconnected);
    assert_eq!(mgr.current_id(100), None);
}

#[test]
fn clock_gone_backwards_forces_a_handshake() {
    let mut mgr = ConnectionManager::new();
    mgr.note_connected(7, 1_000);
    assert_eq!(mgr.current_id(999), None);
}
