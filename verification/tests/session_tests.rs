use udp_tracker::connection::ConnectionManager;
use udp_tracker::connection::ConnectionState;
use udp_tracker::errors::TrackerError;
use udp_tracker::messages::Action;
use udp_tracker::messages::AnnounceOutput;
use udp_tracker::messages::AnnounceStats;
use udp_tracker::messages::ConnectOutput;
use udp_tracker::messages::Event;
use udp_tracker::messages::InfoHash;
use udp_tracker::messages::Peer;
use udp_tracker::messages::PeerId;
use udp_tracker::messages::CONNECTION_ID;
use udp_tracker::session::AnnounceParams;
use udp_tracker::session::FlowStep;
use udp_tracker::session::SessionPhase;
use udp_tracker::session::TrackerSession;

fn params() -> AnnounceParams {
    AnnounceParams {
        info_hash: InfoHash([1u8; 20]),
        peer_id: PeerId([2u8; 20]),
        stats: AnnounceStats { downloaded: 10, uploaded: 20, left: 30 },
        event: Event::Started,
        port: 6881,
    }
}

fn announce_ok(peers: Vec<Peer>) -> AnnounceOutput {
    AnnounceOutput {
        action: Action::Announce,
        transaction_id: 2,
        interval: 1800,
        leechers: 0,
        seeders: 1,
        peers,
    }
}

#[test]
fn flow_without_a_connection_handshakes_first() {
    let mgr = ConnectionManager::new();
    let mut flow = TrackerSession::new(params(), 0xAA55AA55);
    match flow.begin(&mgr, 1_000, 1) {
        FlowStep::SendConnect { request } => {
            assert_eq!(request.connection_id, CONNECTION_ID);
            assert_eq!(request.action, Action::Connect);
            assert_eq!(request.transaction_id, 1);
        }
        other => panic!("unexpected step: {:?}", other),
    }
    assert_eq!(flow.phase, SessionPhase::Handshaking);
}

#[test]
fn flow_with_a_fresh_connection_announces_at_once() {
    let mut mgr = ConnectionManager::new();
    mgr.note_connected(0xC0FFEE, 1_000);
    let mut flow = TrackerSession::new(params(), 0xAA55AA55);
    match flow.begin(&mgr, 1_030, 2) {
        FlowStep::SendAnnounce { request } => {
            assert_eq!(request.connection_id, 0xC0FFEE);
            assert_eq!(request.action, Action::Announce);
            assert_eq!(request.transaction_id, 2);
            assert_eq!(request.info_hash, InfoHash([1u8; 20]));
            assert_eq!(request.peer_id, PeerId([2u8; 20]));
            assert_eq!(request.downloaded, 10);
            assert_eq!(request.left, 30);
            assert_eq!(request.uploaded, 20);
            assert_eq!(request.event, Event::Started);
            assert_eq!(request.ip, [0u8; 4]);
            assert_eq!(request.key, 0xAA55AA55);
            assert_eq!(request.num_want, -1);
            assert_eq!(request.port, 6881);
        }
        other => panic!("unexpected step: {:?}", other),
    }
    assert_eq!(flow.phase, SessionPhase::Announcing);
}

#[test]
fn successful_flow_delivers_the_peers() {
    let mut mgr = ConnectionManager::new();
    let mut flow = TrackerSession::new(params(), 7);
    let step = flow.begin(&mgr, 1_000, 1);
    assert!(matches!(step, FlowStep::SendConnect { .. }));

    let out = ConnectOutput { action: Action::Connect, transaction_id: 1, connection_id: 99 };
    let step = flow.on_connect_outcome(&mut mgr, Ok(out), 1_005, 2);
    assert_eq!(
        mgr.state,
        ConnectionState::Connected { connection_id: 99, acquired_at: 1_005 }
    );
    match step {
        FlowStep::SendAnnounce { request } => assert_eq!(request.connection_id, 99),
        other => panic!("unexpected step: {:?}", other),
    }

    let peers = vec![Peer { ip: [10, 0, 0, 1], port: 6881 }];
    match flow.on_announce_outcome(&mut mgr, Ok(announce_ok(peers.clone())), 3) {
        FlowStep::Deliver { peers: got } => assert_eq!(got, peers),
        other => panic!("unexpected step: {:?}", other),
    }
    assert_eq!(flow.phase, SessionPhase::Finished);
}

#[test]
fn failed_handshake_leaves_no_connection() {
    let mut mgr = ConnectionManager::new();
    let mut flow = TrackerSession::new(params(), 7);
    let _ = flow.begin(&mgr, 1_000, 1);
    match flow.on_connect_outcome(&mut mgr, Err(TrackerError::Timeout), 1_005, 2) {
        FlowStep::Fail { error } => assert_eq!(error, TrackerError::Timeout),
        other => panic!("unexpected step: {:?}", other),
    }
    assert_eq!(mgr.state, ConnectionState::Unconnected);
    assert_eq!(flow.phase, SessionPhase::Finished);
}

#[test]
fn rejected_announce_rehandshakes_exactly_once() {
    let mut mgr = ConnectionManager::new();
    mgr.note_connected(5, 1_000);
    let mut flow = TrackerSession::new(params(), 7);
    let step = flow.begin(&mgr, 1_001, 1);
    assert!(matches!(step, FlowStep::SendAnnounce { .. }));

    let rejected = TrackerError::TrackerRejected(b"bad connection id".to_vec());
    match flow.on_announce_outcome(&mut mgr, Err(rejected.clone()), 2) {
        FlowStep::SendConnect { request } => assert_eq!(request.transaction_id, 2),
        other => panic!("unexpected step: {:?}", other),
    }
    assert_eq!(mgr.state, ConnectionState::Unconnected);
    assert_eq!(flow.phase, SessionPhase::Handshaking);
    assert!(flow.handshake_retried);

    let out = ConnectOutput { action: Action::Connect, transaction_id: 2, connection_id: 6 };
    let step = flow.on_connect_outcome(&mut mgr, Ok(out), 1_002, 3);
    assert!(matches!(step, FlowStep::SendAnnounce { .. }));

    match flow.on_announce_outcome(&mut mgr, Err(rejected.clone()), 4) {
        FlowStep::Fail { error } => assert_eq!(error, rejected),
        other => panic!("unexpected step: {:?}", other),
    }
    assert_eq!(flow.phase, SessionPhase::Finished);
}

#[test]
fn timed_out_announce_is_not_retried_by_the_session() {
    let mut mgr = ConnectionManager::new();
    mgr.note_connected(5, 1_000);
    let mut flow = TrackerSession::new(params(), 7);
    let _ = flow.begin(&mgr, 1_001, 1);
    match flow.on_announce_outcome(&mut mgr, Err(TrackerError::Timeout), 2) {
        FlowStep::Fail { error } => assert_eq!(error, TrackerError::Timeout),
        other => panic!("unexpected step: {:?}", other),
    }
    assert_eq!(
        mgr.state,
        ConnectionState::Connected { connection_id: 5, acquired_at: 1_000 }
    );
}
