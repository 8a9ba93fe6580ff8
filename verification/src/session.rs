//! The announce flow: acquire a valid connection id (handshaking first if
//! none is fresh), send the announce, and deliver the peer list — with
//! exactly one re-handshake-and-retry cycle when the tracker rejects the
//! announce, which suggests the connection id was no longer accepted.
//!
//! The flow is a state machine over plain decisions; the caller performs
//! the sends and waits (each through its own `Correlator`, which applies
//! the full retry schedule) and hands the decoded outcome back.  A
//! retried attempt of one logical request re-sends the same datagram and
//! so reuses its transaction id; each new logical request takes a fresh,
//! caller-chosen transaction id.

use vstd::prelude::*;

use crate::codec::AnnounceInputView;
use crate::connection::ConnectionManager;
use crate::connection::ConnectionState;
use crate::connection::spec_is_fresh;
use crate::errors::TrackerError;
use crate::messages::Action;
use crate::messages::AnnounceInput;
use crate::messages::AnnounceOutput;
use crate::messages::AnnounceStats;
use crate::messages::CONNECTION_ID;
use crate::messages::ConnectInput;
use crate::messages::ConnectOutput;
use crate::messages::Event;
use crate::messages::InfoHash;
use crate::messages::Peer;
use crate::messages::PeerId;

verus! {

/// What one announce call supplies.
#[derive(Clone, Copy, Debug, PartialEq, Eq)]
pub struct AnnounceParams {
    pub info_hash: InfoHash,
    pub peer_id: PeerId,
    pub stats: AnnounceStats,
    pub event: Event,
    pub port: u16,
}

/// Where the flow stands.
#[derive(Clone, Copy, Debug, PartialEq, Eq, Structural)]
pub enum SessionPhase {
    /// A connect request is owed or in flight.
    Handshaking,
    /// An announce request is owed or in flight.
    Announcing,
    /// The flow delivered peers or failed.
    Finished,
}

/// What the caller must do next.
#[derive(Clone, Debug, PartialEq, Eq)]
pub enum FlowStep {
    /// Send this connect request through a correlator.
    SendConnect { request: ConnectInput },
    /// Send this announce request through a correlator.
    SendAnnounce { request: AnnounceInput },
    /// The exchange succeeded; these are the tracker's peers.
    Deliver { peers: Vec<Peer> },
    /// The exchange failed; nothing further will be sent.
    Fail { error: TrackerError },
}

/// The announce request the session builds: the supplied identifiers,
/// stats and event, the all-zero ip, the session's key, the default peer
/// count of -1, and the listening port.
pub open spec fn spec_announce_request(
    connection_id: u64,
    transaction_id: u32,
    p: AnnounceParams,
    key: u32,
) -> AnnounceInputView {
    AnnounceInputView {
        connection_id,
        action: Action::Announce,
        transaction_id,
        info_hash: p.info_hash.0@,
        peer_id: p.peer_id.0@,
        downloaded: p.stats.downloaded,
        left: p.stats.left,
        uploaded: p.stats.uploaded,
        event: p.event,
        ip: seq![0u8, 0u8, 0u8, 0u8],
        key,
        num_want: -1i32,
        port: p.port,
    }
}

/// One announce exchange with a tracker, from the caller's parameters to
/// a peer list or a typed failure.
#[derive(Clone, Copy, Debug, PartialEq, Eq)]
pub struct TrackerSession {
    pub params: AnnounceParams,
    /// Client-chosen correlation token, stable for the session.
    pub key: u32,
    pub phase: SessionPhase,
    /// Whether the one re-handshake after a rejected announce was spent.
    pub handshake_retried: bool,
}

impl TrackerSession {
    /// A new flow for one announce call.
    pub fn new(params: AnnounceParams, key: u32) -> (r: Self)
        ensures
            r == (TrackerSession {
                params,
                key,
                phase: SessionPhase::Handshaking,
                handshake_retried: false,
            }),
    {
        Self { params, key, phase: SessionPhase::Handshaking, handshake_retried: false }
    }

    /// Starts the flow at `now`: with a fresh connection id the announce
    /// goes out at once; otherwise a handshake under `transaction_id`
    /// comes first.  A stale id is never used.
    pub fn begin(&mut self, mgr: &ConnectionManager, now: u64, transaction_id: u32) -> (r: FlowStep)
        requires
            old(self).phase == SessionPhase::Handshaking,
        ensures
            final(self).params == old(self).params,
            final(self).key == old(self).key,
            final(self).handshake_retried == old(self).handshake_retried,
            spec_is_fresh(mgr.state, now) ==> final(self).phase == SessionPhase::Announcing && (
            r matches FlowStep::SendAnnounce { request } && request@ == spec_announce_request(
                mgr.state->Connected_connection_id,
                transaction_id,
                old(self).params,
                old(self).key,
            )),
            !spec_is_fresh(mgr.state, now) ==> final(self).phase == SessionPhase::Handshaking && r
                == (FlowStep::SendConnect {
                request: ConnectInput {
                    connection_id: CONNECTION_ID,
                    action: Action::Connect,
                    transaction_id,
                },
            }),
    {
        match mgr.current_id(now) {
            Some(connection_id) => {
                self.phase = SessionPhase::Announcing;
                let request = AnnounceInput::new(
                    connection_id,
                    transaction_id,
                    self.params.info_hash,
                    self.params.peer_id,
                    self.params.stats,
                    self.params.event,
                    self.key,
                    self.params.port,
                );
                proof {
                    assert(request@ =~= spec_announce_request(
                        connection_id,
                        transaction_id,
                        self.params,
                        self.key,
                    ));
                }
                FlowStep::SendAnnounce { request }
            },
            None => FlowStep::SendConnect { request: ConnectInput::new(transaction_id) },
        }
    }

    /// The handshake's correlator finished.  On success the manager
    /// records the issued id as acquired at `now` and the announce goes
    /// out under `transaction_id`; on failure the manager holds no
    /// connection and the failure is surfaced.
    pub fn on_connect_outcome(
        &mut self,
        mgr: &mut ConnectionManager,
        outcome: Result<ConnectOutput, TrackerError>,
        now: u64,
        transaction_id: u32,
    ) -> (r: FlowStep)
        requires
            old(self).phase == SessionPhase::Handshaking,
        ensures
            final(self).params == old(self).params,
            final(self).key == old(self).key,
            final(self).handshake_retried == old(self).handshake_retried,
            outcome matches Ok(out) ==> (final(mgr).state == (ConnectionState::Connected {
                connection_id: out.connection_id,
                acquired_at: now,
            }) && final(self).phase == SessionPhase::Announcing && (
            r matches FlowStep::SendAnnounce { request } && request@ == spec_announce_request(
                out.connection_id,
                transaction_id,
                old(self).params,
                old(self).key,
            ))),
            outcome matches Err(e) ==> (final(mgr).state == ConnectionState::Unconnected && final(self).phase == SessionPhase::Finished && r == (FlowStep::Fail { error: e })),
    {
        match outcome {
            Ok(out) => {
                mgr.note_connected(out.connection_id, now);
                self.phase = SessionPhase::Announcing;
                let request = AnnounceInput::new(
                    out.connection_id,
                    transaction_id,
                    self.params.info_hash,
                    self.params.peer_id,
                    self.params.stats,
                    self.params.event,
                    self.key,
                    self.params.port,
                );
                proof {
                    assert(request@ =~= spec_announce_request(
                        out.connection_id,
                        transaction_id,
                        self.params,
                        self.key,
                    ));
                }
                FlowStep::SendAnnounce { request }
            },
            Err(e) => {
                mgr.invalidate();
                self.phase = SessionPhase::Finished;
                FlowStep::Fail { error: e }
            },
        }
    }

    /// The announce's correlator finished.  Success delivers the peers.
    /// A rejection by the tracker suggests the connection id was not
    /// accepted: the id is discarded and, once only, a fresh handshake
    /// under `transaction_id` re-runs the flow; a second rejection, and
    /// every other failure, is surfaced as it is.
    pub fn on_announce_outcome(
        &mut self,
        mgr: &mut ConnectionManager,
        outcome: Result<AnnounceOutput, TrackerError>,
        transaction_id: u32,
    ) -> (r: FlowStep)
        requires
            old(self).phase == SessionPhase::Announcing,
        ensures
            final(self).params == old(self).params,
            final(self).key == old(self).key,
            outcome matches Ok(out) ==> (*final(mgr) == *old(mgr) && final(self).phase
                == SessionPhase::Finished && final(self).handshake_retried == old(self).handshake_retried && (r matches FlowStep::Deliver { peers } && peers@
                == out.peers@)),
            outcome matches Err(TrackerError::TrackerRejected(msg)) ==> ((!old(self).handshake_retried ==> (final(mgr).state == ConnectionState::Unconnected && final(self).phase == SessionPhase::Handshaking && final(self).handshake_retried && r == (
            FlowStep::SendConnect {
                request: ConnectInput {
                    connection_id: CONNECTION_ID,
                    action: Action::Connect,
                    transaction_id,
                },
            }))) && (old(self).handshake_retried ==> (*final(mgr) == *old(mgr) && final(self).phase
                == SessionPhase::Finished && final(self).handshake_retried && r == (FlowStep::Fail {
                error: TrackerError::TrackerRejected(msg),
            })))),
            outcome matches Err(e) ==> (!(e is TrackerRejected) ==> (*final(mgr) == *old(mgr)
                && final(self).phase == SessionPhase::Finished && final(self).handshake_retried
                == old(self).handshake_retried && r == (FlowStep::Fail { error: e }))),
    {
        match outcome {
            Ok(out) => {
                self.phase = SessionPhase::Finished;
                FlowStep::Deliver { peers: out.peers }
            },
            Err(e) => {
                match e {
                    TrackerError::TrackerRejected(msg) => {
                        if !self.handshake_retried {
                            self.handshake_retried = true;
                            mgr.invalidate();
                            self.phase = SessionPhase::Handshaking;
                            FlowStep::SendConnect { request: ConnectInput::new(transaction_id) }
                        } else {
                            self.phase = SessionPhase::Finished;
                            FlowStep::Fail { error: TrackerError::TrackerRejected(msg) }
                        }
                    },
                    other => {
                        self.phase = SessionPhase::Finished;
                        FlowStep::Fail { error: other }
                    },
                }
            },
        }
    }
}

} // verus!
