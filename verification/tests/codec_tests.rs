use udp_tracker::codec::decode_announce_output;
use udp_tracker::codec::decode_connect_input;
use udp_tracker::codec::decode_connect_output;
use udp_tracker::codec::decode_error_output;
use udp_tracker::codec::decode_header;
use udp_tracker::codec::encode_announce_input;
use udp_tracker::codec::encode_announce_output;
use udp_tracker::codec::encode_connect_input;
use udp_tracker::errors::DecodeError;
use udp_tracker::messages::Action;
use udp_tracker::messages::AnnounceInput;
use udp_tracker::messages::AnnounceOutput;
use udp_tracker::messages::AnnounceStats;
use udp_tracker::messages::ConnectInput;
use udp_tracker::messages::ConnectOutput;
use udp_tracker::messages::Event;
use udp_tracker::messages::InfoHash;
use udp_tracker::messages::Peer;
use udp_tracker::messages::PeerId;
use udp_tracker::messages::CONNECTION_ID;

#[test]
fn test_connect_input() {
    let action = Action::Connect;
    let transaction_id: u32 = 72;

    let connect_input = ConnectInput::new(transaction_id);

    let mut expected: Vec<u8> = Vec::new();
    expected.extend_from_slice(&CONNECTION_ID.to_be_bytes());
    expected.extend_from_slice(&(action.code()).to_be_bytes());
    expected.extend_from_slice(&transaction_id.to_be_bytes());
    assert_eq!(expected.len(), 16);
    assert_eq!(&expected[12..16], &transaction_id.to_be_bytes());

    let actual = encode_connect_input(&connect_input);

    assert_eq!(expected, actual);
}

#[test]
fn test_connect_output() {
    let action = Action::Connect;
    let transaction_id: u32 = 42;

    let mut buf: Vec<u8> = Vec::new();
    buf.extend_from_slice(&(action.code()).to_be_bytes());
    buf.extend_from_slice(&transaction_id.to_be_bytes());
    buf.extend_from_slice(&CONNECTION_ID.to_be_bytes());
    assert_eq!(buf.len(), 16);

    let expected = ConnectOutput {
        action,
        transaction_id,
        connection_id: CONNECTION_ID,
    };

    assert_eq!(Ok(expected), decode_connect_output(&buf));
}

#[test]
fn connect_to_tracker() {
}

#[test]
fn connect_response_carries_its_fields() {
    let transaction_id: u32 = 0xDEADBEEF;
    let connection_id: u64 = 0x1122334455667788;
    let mut buf: Vec<u8> = Vec::new();
    buf.extend_from_slice(&0u32.to_be_bytes());
    buf.extend_from_slice(&transaction_id.to_be_bytes());
    buf.extend_from_slice(&connection_id.to_be_bytes());

    let out = decode_connect_output(&buf).unwrap();
    assert_eq!(out.action, Action::Connect);
    assert_eq!(out.transaction_id, transaction_id);
    assert_eq!(out.connection_id, connection_id);
}

#[test]
fn connect_request_round_trips() {
    let m = ConnectInput::new(908070605);
    let bytes = encode_connect_input(&m);
    assert_eq!(decode_connect_input(&bytes), Ok(m));
}

#[test]
fn truncated_connect_response_is_rejected() {
    let buf: Vec<u8> = vec![0; 15];
    assert_eq!(decode_connect_output(&buf), Err(DecodeError::Truncated));
}

#[test]
fn unrecognized_action_is_rejected() {
    let mut buf: Vec<u8> = Vec::new();
    buf.extend_from_slice(&9u32.to_be_bytes());
    buf.extend_from_slice(&1u32.to_be_bytes());
    buf.extend_from_slice(&[0u8; 8]);
    assert_eq!(decode_connect_output(&buf), Err(DecodeError::UnknownAction));
    assert_eq!(decode_header(&buf), Err(DecodeError::UnknownAction));
}

#[test]
fn header_reads_action_and_transaction_id() {
    let mut buf: Vec<u8> = Vec::new();
    buf.extend_from_slice(&1u32.to_be_bytes());
    buf.extend_from_slice(&77u32.to_be_bytes());
    assert_eq!(decode_header(&buf), Ok((Action::Announce, 77)));
    let short: Vec<u8> = vec![0; 7];
    assert_eq!(decode_header(&short), Err(DecodeError::Truncated));
}

fn announce_response_header(transaction_id: u32, interval: u32, leechers: u32, seeders: u32) -> Vec<u8> {
    let mut buf: Vec<u8> = Vec::new();
    buf.extend_from_slice(&1u32.to_be_bytes());
    buf.extend_from_slice(&transaction_id.to_be_bytes());
    buf.extend_from_slice(&interval.to_be_bytes());
    buf.extend_from_slice(&leechers.to_be_bytes());
    buf.extend_from_slice(&seeders.to_be_bytes());
    buf
}

#[test]
fn announce_response_with_no_peers_is_empty() {
    let buf = announce_response_header(5, 1800, 3, 9);
    let out = decode_announce_output(&buf).unwrap();
    assert_eq!(out.transaction_id, 5);
    assert_eq!(out.interval, 1800);
    assert_eq!(out.leechers, 3);
    assert_eq!(out.seeders, 9);
    assert!(out.peers.is_empty());
}

#[test]
fn announce_response_with_two_peers_keeps_their_order() {
    let mut buf = announce_response_header(5, 1800, 3, 9);
    buf.extend_from_slice(&[10, 0, 0, 1]);
    buf.extend_from_slice(&6881u16.to_be_bytes());
    buf.extend_from_slice(&[192, 168, 1, 2]);
    buf.extend_from_slice(&51413u16.to_be_bytes());

    let out = decode_announce_output(&buf).unwrap();
    assert_eq!(out.peers.len(), 2);
    assert_eq!(out.peers[0], Peer { ip: [10, 0, 0, 1], port: 6881 });
    assert_eq!(out.peers[1], Peer { ip: [192, 168, 1, 2], port: 51413 });
}

#[test]
fn announce_tail_not_a_multiple_of_six_is_malformed() {
    let mut buf = announce_response_header(5, 1800, 3, 9);
    buf.extend_from_slice(&[10, 0, 0, 1]);
    assert_eq!(decode_announce_output(&buf), Err(DecodeError::MalformedPeerList));
}

#[test]
fn announce_response_round_trips() {
    let m = AnnounceOutput {
        action: Action::Announce,
        transaction_id: 31337,
        interval: 900,
        leechers: 2,
        seeders: 40,
        peers: vec![
            Peer { ip: [10, 0, 0, 1], port: 6881 },
            Peer { ip: [172, 16, 5, 9], port: 80 },
        ],
    };
    let bytes = encode_announce_output(&m);
    assert_eq!(bytes.len(), 20 + 2 * 6);
    assert_eq!(decode_announce_output(&bytes), Ok(m));
}

#[test]
fn announce_request_has_its_exact_layout() {
    let m = AnnounceInput::new(
        0x0102030405060708,
        0xA1B2C3D4,
        InfoHash([7u8; 20]),
        PeerId([9u8; 20]),
        AnnounceStats { downloaded: 100, uploaded: 50, left: 25 },
        Event::Started,
        0xCAFEBABE,
        6881,
    );
    let bytes = encode_announce_input(&m);
    assert_eq!(bytes.len(), 98);

    let mut expected: Vec<u8> = Vec::new();
    expected.extend_from_slice(&0x0102030405060708u64.to_be_bytes());
    expected.extend_from_slice(&1u32.to_be_bytes());
    expected.extend_from_slice(&0xA1B2C3D4u32.to_be_bytes());
    expected.extend_from_slice(&[7u8; 20]);
    expected.extend_from_slice(&[9u8; 20]);
    expected.extend_from_slice(&100u64.to_be_bytes());
    expected.extend_from_slice(&25u64.to_be_bytes());
    expected.extend_from_slice(&50u64.to_be_bytes());
    expected.extend_from_slice(&2u32.to_be_bytes());
    expected.extend_from_slice(&[0u8; 4]);
    expected.extend_from_slice(&0xCAFEBABEu32.to_be_bytes());
    expected.extend_from_slice(&(-1i32).to_be_bytes());
    expected.extend_from_slice(&6881u16.to_be_bytes());
    assert_eq!(expected, bytes);
}

#[test]
fn error_response_carries_its_message() {
    let mut buf: Vec<u8> = Vec::new();
    buf.extend_from_slice(&3u32.to_be_bytes());
    buf.extend_from_slice(&11u32.to_be_bytes());
    buf.extend_from_slice(b"unregistered torrent");

    let out = decode_error_output(&buf).unwrap();
    assert_eq!(out.action, Action::Error);
    assert_eq!(out.transaction_id, 11);
    assert_eq!(out.message, b"unregistered torrent".to_vec());
}

#[test]
fn action_and_event_codes_round_trip() {
    for (a, c) in [
        (Action::Connect, 0u32),
        (Action::Announce, 1),
        (Action::Scrape, 2),
        (Action::Error, 3),
    ] {
        assert_eq!(a.code(), c);
        assert_eq!(Action::from_code(c), Some(a));
    }
    assert_eq!(Action::from_code(4), None);
    for (e, c) in [
        (Event::NoEvent, 0u32),
        (Event::Completed, 1),
        (Event::Started, 2),
        (Event::Stopped, 3),
    ] {
        assert_eq!(e.code(), c);
        assert_eq!(Event::from_code(c), Some(e));
    }
    assert_eq!(Event::from_code(17), None);
}
