//! The value objects the protocol exchanges: connect request/response,
//! announce request/response, and the error response variant, together
//! with the enumerated opcodes and announce events and their wire codes.

use vstd::prelude::*;

verus! {

/// Fixed protocol constant sent as the connection id of every connect
/// request; the handshake is the only exchange that uses it.
pub const CONNECTION_ID: u64 = 0x41727101980;

/// Protocol opcode, present on every request and response.
#[derive(Clone, Copy, Debug, PartialEq, Eq, Structural)]
pub enum Action {
    Connect,
    Announce,
    Scrape,
    Error,
}

/// The wire code of an opcode.
pub open spec fn spec_action_code(a: Action) -> u32 {
    match a {
        Action::Connect => 0u32,
        Action::Announce => 1u32,
        Action::Scrape => 2u32,
        Action::Error => 3u32,
    }
}

/// The opcode of a wire code; unknown values are rejected, not defaulted.
pub open spec fn spec_action_from_code(c: u32) -> Option<Action> {
    if c == 0 {
        Some(Action::Connect)
    } else if c == 1 {
        Some(Action::Announce)
    } else if c == 2 {
        Some(Action::Scrape)
    } else if c == 3 {
        Some(Action::Error)
    } else {
        None
    }
}

impl Action {
    /// The wire code of this opcode.
    pub fn code(self) -> (r: u32)
        ensures
            r == spec_action_code(self),
    {
        match self {
            Action::Connect => 0,
            Action::Announce => 1,
            Action::Scrape => 2,
            Action::Error => 3,
        }
    }

    /// The opcode a wire code denotes, if any.
    pub fn from_code(c: u32) -> (r: Option<Action>)
        ensures
            r == spec_action_from_code(c),
    {
        if c == 0 {
            Some(Action::Connect)
        } else if c == 1 {
            Some(Action::Announce)
        } else if c == 2 {
            Some(Action::Scrape)
        } else if c == 3 {
            Some(Action::Error)
        } else {
            None
        }
    }
}

/// The wire codes of opcodes are distinct, so an opcode can be recovered
/// from its own code.
pub proof fn lemma_action_code_round_trip(a: Action)
    ensures
        spec_action_from_code(spec_action_code(a)) == Some(a),
{
}

/// What an announce reports about the client's state.
#[derive(Clone, Copy, Debug, PartialEq, Eq, Structural)]
pub enum Event {
    NoEvent,
    Completed,
    Started,
    Stopped,
}

/// The wire code of an event.
pub open spec fn spec_event_code(e: Event) -> u32 {
    match e {
        Event::NoEvent => 0u32,
        Event::Completed => 1u32,
        Event::Started => 2u32,
        Event::Stopped => 3u32,
    }
}

/// The event a wire code denotes, if any.
pub open spec fn spec_event_from_code(c: u32) -> Option<Event> {
    if c == 0 {
        Some(Event::NoEvent)
    } else if c == 1 {
        Some(Event::Completed)
    } else if c == 2 {
        Some(Event::Started)
    } else if c == 3 {
        Some(Event::Stopped)
    } else {
        None
    }
}

impl Event {
    /// The wire code of this event.
    pub fn code(self) -> (r: u32)
        ensures
            r == spec_event_code(self),
    {
        match self {
            Event::NoEvent => 0,
            Event::Completed => 1,
            Event::Started => 2,
            Event::Stopped => 3,
        }
    }

    /// The event a wire code denotes, if any.
    pub fn from_code(c: u32) -> (r: Option<Event>)
        ensures
            r == spec_event_from_code(c),
    {
        if c == 0 {
            Some(Event::NoEvent)
        } else if c == 1 {
            Some(Event::Completed)
        } else if c == 2 {
            Some(Event::Started)
        } else if c == 3 {
            Some(Event::Stopped)
        } else {
            None
        }
    }
}

/// The wire codes of events are distinct, so an event can be recovered
/// from its own code.
pub proof fn lemma_event_code_round_trip(e: Event)
    ensures
        spec_event_from_code(spec_event_code(e)) == Some(e),
{
}

/// Fixed 20-byte content identifier, copied verbatim onto the wire.
#[derive(Clone, Copy, Debug, PartialEq, Eq)]
pub struct InfoHash(pub [u8; 20]);

/// Fixed 20-byte client identifier, copied verbatim onto the wire.
#[derive(Clone, Copy, Debug, PartialEq, Eq)]
pub struct PeerId(pub [u8; 20]);

/// Downloaded/uploaded/left byte counters reported by an announce.
#[derive(Clone, Copy, Debug, PartialEq, Eq, Structural)]
pub struct AnnounceStats {
    pub downloaded: u64,
    pub uploaded: u64,
    pub left: u64,
}

/// The 16-byte handshake request.
#[derive(Clone, Copy, Debug, PartialEq, Eq, Structural)]
pub struct ConnectInput {
    pub connection_id: u64,
    pub action: Action,
    pub transaction_id: u32,
}

impl ConnectInput {
    /// A connect request carries the fixed protocol constant, the connect
    /// opcode, and the caller's transaction id.
    pub fn new(transaction_id: u32) -> (r: Self)
        ensures
            r == (ConnectInput {
                connection_id: CONNECTION_ID,
                action: Action::Connect,
                transaction_id,
            }),
    {
        Self { connection_id: CONNECTION_ID, action: Action::Connect, transaction_id }
    }
}

/// The 16-byte handshake response carrying the issued connection id.
#[derive(Clone, Copy, Debug, PartialEq, Eq, Structural)]
pub struct ConnectOutput {
    pub action: Action,
    pub transaction_id: u32,
    pub connection_id: u64,
}

/// The 98-byte announce request.
#[derive(Clone, Copy, Debug, PartialEq, Eq)]
pub struct AnnounceInput {
    pub connection_id: u64,
    pub action: Action,
    pub transaction_id: u32,
    pub info_hash: InfoHash,
    pub peer_id: PeerId,
    pub downloaded: u64,
    pub left: u64,
    pub uploaded: u64,
    pub event: Event,
    pub ip: [u8; 4],
    pub key: u32,
    pub num_want: i32,
    pub port: u16,
}

impl AnnounceInput {
    /// An announce request for one call: the supplied identifiers, stats
    /// and event, the all-zero ip (the tracker infers the source address),
    /// the session's key, the default peer count of -1 (the tracker
    /// decides), and the listening port.
    pub fn new(
        connection_id: u64,
        transaction_id: u32,
        info_hash: InfoHash,
        peer_id: PeerId,
        stats: AnnounceStats,
        event: Event,
        key: u32,
        port: u16,
    ) -> (r: Self)
        ensures
            r == (AnnounceInput {
                connection_id,
                action: Action::Announce,
                transaction_id,
                info_hash,
                peer_id,
                downloaded: stats.downloaded,
                left: stats.left,
                uploaded: stats.uploaded,
                event,
                ip: [0u8, 0u8, 0u8, 0u8],
                key,
                num_want: -1i32,
                port,
            }),
    {
        Self {
            connection_id,
            action: Action::Announce,
            transaction_id,
            info_hash,
            peer_id,
            downloaded: stats.downloaded,
            left: stats.left,
            uploaded: stats.uploaded,
            event,
            ip: [0u8, 0u8, 0u8, 0u8],
            key,
            num_want: -1i32,
            port,
        }
    }
}

/// One peer entry of an announce response: an IPv4 address and a port.
#[derive(Clone, Copy, Debug, PartialEq, Eq)]
pub struct Peer {
    pub ip: [u8; 4],
    pub port: u16,
}

/// Spec-level value of a peer entry.
#[verifier::ext_equal]
pub ghost struct PeerView {
    pub ip: Seq<u8>,
    pub port: u16,
}

impl View for Peer {
    type V = PeerView;

    open spec fn view(&self) -> PeerView {
        PeerView { ip: self.ip@, port: self.port }
    }
}

/// The variable-length announce response: a fixed 20-byte header followed
/// by zero or more 6-byte peer entries.
#[derive(Clone, Debug, PartialEq, Eq)]
pub struct AnnounceOutput {
    pub action: Action,
    pub transaction_id: u32,
    pub interval: u32,
    pub leechers: u32,
    pub seeders: u32,
    pub peers: Vec<Peer>,
}

/// Spec-level value of an announce response.
#[verifier::ext_equal]
pub ghost struct AnnounceOutputView {
    pub action: Action,
    pub transaction_id: u32,
    pub interval: u32,
    pub leechers: u32,
    pub seeders: u32,
    pub peers: Seq<PeerView>,
}

impl View for AnnounceOutput {
    type V = AnnounceOutputView;

    open spec fn view(&self) -> AnnounceOutputView {
        AnnounceOutputView {
            action: self.action,
            transaction_id: self.transaction_id,
            interval: self.interval,
            leechers: self.leechers,
            seeders: self.seeders,
            peers: self.peers@.map_values(|p: Peer| p@),
        }
    }
}

/// The error response: the error opcode, the transaction id it answers,
/// and a human-readable message in the remaining bytes.
#[derive(Clone, Debug, PartialEq, Eq)]
pub struct ErrorOutput {
    pub action: Action,
    pub transaction_id: u32,
    pub message: Vec<u8>,
}

} // verus!
