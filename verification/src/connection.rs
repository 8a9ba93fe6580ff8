//! Handshake state: the connection id acquired from the tracker and the
//! 60-second expiry window it is valid for.  The id is owned here alone;
//! it is discarded, never mutated, on expiry or on any failure that
//! suggests the tracker no longer accepts it.

use vstd::prelude::*;

verus! {

/// How long an acquired connection id stays valid, from its acquisition.
pub const CONNECTION_TTL_SECONDS: u64 = 60;

/// The two states of the handshake.
#[derive(Clone, Copy, Debug, PartialEq, Eq, Structural)]
pub enum ConnectionState {
    Unconnected,
    Connected { connection_id: u64, acquired_at: u64 },
}

/// A connection id acquired at `acquired_at` may be used at `now` exactly
/// when `now` is inside `[acquired_at, acquired_at + 60)`; at 60 seconds
/// it is already stale, and a clock that moved backwards also forces a
/// new handshake.
pub open spec fn spec_is_fresh(st: ConnectionState, now: u64) -> bool {
    match st {
        ConnectionState::Unconnected => false,
        ConnectionState::Connected { connection_id, acquired_at } => acquired_at <= now && now
            - acquired_at < CONNECTION_TTL_SECONDS,
    }
}

/// Owner of the handshake state and its expiry policy.
#[derive(Clone, Copy, Debug, PartialEq, Eq, Structural)]
pub struct ConnectionManager {
    pub state: ConnectionState,
}

impl ConnectionManager {
    /// A fresh manager holds no connection.
    pub fn new() -> (r: Self)
        ensures
            r.state == ConnectionState::Unconnected,
    {
        Self { state: ConnectionState::Unconnected }
    }

    /// The connection id to use at `now`, exactly when one is held and
    /// still inside its window.
    pub fn current_id(&self, now: u64) -> (r: Option<u64>)
        ensures
            spec_is_fresh(self.state, now) ==> r == Some(self.state->Connected_connection_id),
            !spec_is_fresh(self.state, now) ==> r is None,
    {
        match self.state {
            ConnectionState::Unconnected => None,
            ConnectionState::Connected { connection_id, acquired_at } => {
                if acquired_at <= now && now - acquired_at < CONNECTION_TTL_SECONDS {
                    Some(connection_id)
                } else {
                    None
                }
            },
        }
    }

    /// Whether an announce at `now` must be preceded by a handshake.
    pub fn needs_handshake(&self, now: u64) -> (r: bool)
        ensures
            r == !spec_is_fresh(self.state, now),
    {
        match self.state {
            ConnectionState::Unconnected => true,
            ConnectionState::Connected { connection_id, acquired_at } => !(acquired_at <= now
                && now - acquired_at < CONNECTION_TTL_SECONDS),
        }
    }

    /// Records the id a successful handshake returned, acquired at `now`.
    pub fn note_connected(&mut self, connection_id: u64, now: u64)
        ensures
            final(self).state == (ConnectionState::Connected { connection_id, acquired_at: now }),
    {
        self.state = ConnectionState::Connected { connection_id, acquired_at: now };
    }

    /// Discards the held connection id, whatever its age; called when a
    /// send using it failed in a way that suggests the tracker rejected
    /// it, or when a handshake failed.
    pub fn invalidate(&mut self)
        ensures
            final(self).state == ConnectionState::Unconnected,
    {
        self.state = ConnectionState::Unconnected;
    }
}

/// One second before the window closes an id is still accepted; at the
/// 60-second boundary, and after it, the id is stale and an announce must
/// re-run the handshake first.
pub proof fn lemma_expiry_window(connection_id: u64, t0: u64)
    requires
        t0 + 61 <= u64::MAX,
    ensures
        spec_is_fresh(
            ConnectionState::Connected { connection_id, acquired_at: t0 },
            (t0 + 59) as u64,
        ),
        !spec_is_fresh(
            ConnectionState::Connected { connection_id, acquired_at: t0 },
            (t0 + 60) as u64,
        ),
        !spec_is_fresh(
            ConnectionState::Connected { connection_id, acquired_at: t0 },
            (t0 + 61) as u64,
        ),
{
}

} // verus!
