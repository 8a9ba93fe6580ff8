//! Correlation of inbound datagrams with the one request a waiter has in
//! flight, and the retry/backoff schedule the protocol mandates: attempt
//! `n` (0-indexed) waits `15 * 2^n` seconds, the request is re-sent on
//! each attempt, and after 8 attempts without a matching response the
//! exchange fails with a timeout.  Inbound datagrams whose transaction id
//! is not the awaited one are discarded without touching the wait.

use vstd::prelude::*;

use crate::codec::decode_error_output;
use crate::codec::decode_header;
use crate::codec::spec_decode_header;
use crate::errors::DecodeError;
use crate::errors::TrackerError;
use crate::messages::Action;

verus! {

/// Number of attempts one logical exchange makes before failing.
pub const MAX_ATTEMPTS: u8 = 8;

/// Seconds attempt `n` waits for a matching response: `15 * 2^n`.
pub open spec fn spec_timeout_for_attempt(n: u8) -> u64
    recommends
        n < MAX_ATTEMPTS,
{
    (15 * (1u64 << (n as u64))) as u64
}

/// Computes the per-attempt timeout of the schedule.
pub fn timeout_for_attempt(n: u8) -> (r: u64)
    requires
        n < MAX_ATTEMPTS,
    ensures
        r == spec_timeout_for_attempt(n),
{
    let m: u64 = n as u64;
    proof {
        assert(m < 8 ==> (1u64 << m) <= 128) by (bit_vector);
    }
    let shifted: u64 = 1u64 << m;
    15 * shifted
}

/// What the correlator makes of one inbound datagram.
#[derive(Clone, Copy, Debug, PartialEq, Eq, Structural)]
pub enum DatagramClass {
    /// Not addressed to this waiter: undecodable header, a foreign
    /// transaction id, or a recognized but unexpected action.
    NotOurs,
    /// The awaited transaction id under the error opcode: the tracker
    /// rejected the request.
    Rejection,
    /// The awaited transaction id under the awaited action.
    Match,
}

/// How the transaction id and action of a datagram relate to the one
/// request awaited.
pub open spec fn spec_classify(transaction_id: u32, expected_action: Action, d: Seq<u8>) -> DatagramClass {
    match spec_decode_header(d) {
        Err(_) => DatagramClass::NotOurs,
        Ok((a, tid)) => if tid != transaction_id {
            DatagramClass::NotOurs
        } else if a == Action::Error {
            DatagramClass::Rejection
        } else if a == expected_action {
            DatagramClass::Match
        } else {
            DatagramClass::NotOurs
        },
    }
}

/// What a waiter must do next.
#[derive(Clone, Debug, PartialEq, Eq)]
pub enum WaitStep {
    /// Keep waiting on the current attempt; its timeout clock is not
    /// reset.
    KeepWaiting,
    /// Re-send the request and wait this many seconds.
    SendAgain { timeout_seconds: u64 },
    /// A datagram matched; its full payload is handed back for decoding.
    Matched { payload: Vec<u8> },
    /// The exchange is over without a response.
    Failed { error: TrackerError },
}

/// The wait of one logical request: the transaction id it was sent under,
/// the action its response must carry, and the index of the attempt
/// currently in flight.
#[derive(Clone, Copy, Debug, PartialEq, Eq, Structural)]
pub struct Correlator {
    pub transaction_id: u32,
    pub expected_action: Action,
    pub attempt: u8,
}

impl Correlator {
    /// Starts the wait for one request; the caller sends the datagram and
    /// arms the first timeout of the schedule.
    pub fn new(transaction_id: u32, expected_action: Action) -> (r: Self)
        ensures
            r == (Correlator { transaction_id, expected_action, attempt: 0u8 }),
    {
        Self { transaction_id, expected_action, attempt: 0 }
    }

    /// The timeout of the attempt currently in flight.
    pub fn current_timeout(&self) -> (r: u64)
        requires
            self.attempt < MAX_ATTEMPTS,
        ensures
            r == spec_timeout_for_attempt(self.attempt),
    {
        timeout_for_attempt(self.attempt)
    }

    /// Routes one inbound datagram.  A datagram that is not this waiter's
    /// is discarded and the wait goes on unchanged — in particular the
    /// attempt and therefore its timeout clock are untouched.  The awaited
    /// transaction id under the error opcode surfaces the tracker's
    /// message at once; under the awaited action the payload is handed
    /// back for full decoding.
    pub fn on_datagram(&mut self, d: Vec<u8>) -> (r: WaitStep)
        ensures
            *final(self) == *old(self),
            spec_classify(old(self).transaction_id, old(self).expected_action, d@)
                == DatagramClass::NotOurs ==> r == WaitStep::KeepWaiting,
            spec_classify(old(self).transaction_id, old(self).expected_action, d@)
                == DatagramClass::Rejection ==> (r matches WaitStep::Failed { error } && error
                matches TrackerError::TrackerRejected(msg) && msg@ == d@.subrange(
                8,
                d@.len() as int,
            )),
            spec_classify(old(self).transaction_id, old(self).expected_action, d@)
                == DatagramClass::Match ==> (r matches WaitStep::Matched { payload } && payload@
                == d@),
    {
        match decode_header(&d) {
            Err(_) => WaitStep::KeepWaiting,
            Ok((a, tid)) => {
                if tid != self.transaction_id {
                    WaitStep::KeepWaiting
                } else if a == Action::Error {
                    match decode_error_output(&d) {
                        Ok(e) => WaitStep::Failed {
                            error: TrackerError::TrackerRejected(e.message),
                        },
                        Err(_) => {
                            proof {
                                // the header decoded under the error opcode,
                                // so the full error decode cannot fail
                                assert(false);
                            }
                            WaitStep::KeepWaiting
                        },
                    }
                } else if a == self.expected_action {
                    WaitStep::Matched { payload: d }
                } else {
                    WaitStep::KeepWaiting
                }
            },
        }
    }

    /// The attempt in flight timed out: re-send under the next attempt of
    /// the schedule, or, when the last attempt has elapsed, fail with a
    /// timeout.
    pub fn on_timeout(&mut self) -> (r: WaitStep)
        requires
            old(self).attempt < MAX_ATTEMPTS,
        ensures
            final(self).transaction_id == old(self).transaction_id,
            final(self).expected_action == old(self).expected_action,
            old(self).attempt + 1 < MAX_ATTEMPTS ==> final(self).attempt == old(self).attempt + 1
                && r == (WaitStep::SendAgain {
                timeout_seconds: spec_timeout_for_attempt((old(self).attempt + 1) as u8),
            }),
            old(self).attempt + 1 == MAX_ATTEMPTS ==> *final(self) == *old(self) && r == (
            WaitStep::Failed { error: TrackerError::Timeout }),
    {
        if self.attempt + 1 < MAX_ATTEMPTS {
            self.attempt = self.attempt + 1;
            WaitStep::SendAgain { timeout_seconds: timeout_for_attempt(self.attempt) }
        } else {
            WaitStep::Failed { error: TrackerError::Timeout }
        }
    }

    /// The caller cancelled at a scheduling point: the wait ends with
    /// `Cancelled` and no state is perturbed — a connection id already
    /// acquired elsewhere stays valid until its own expiry.
    pub fn on_cancel(&self) -> (r: WaitStep)
        ensures
            r == (WaitStep::Failed { error: TrackerError::Cancelled }),
    {
        WaitStep::Failed { error: TrackerError::Cancelled }
    }
}

/// The schedule of a transport that never responds: eight attempts whose
/// timeouts are 15, 30, 60, 120, 240, 480, 960 and 1920 seconds, after
/// which `on_timeout` fails with `Timeout`.
pub proof fn lemma_retry_schedule()
    ensures
        spec_timeout_for_attempt(0) == 15,
        spec_timeout_for_attempt(1) == 30,
        spec_timeout_for_attempt(2) == 60,
        spec_timeout_for_attempt(3) == 120,
        spec_timeout_for_attempt(4) == 240,
        spec_timeout_for_attempt(5) == 480,
        spec_timeout_for_attempt(6) == 960,
        spec_timeout_for_attempt(7) == 1920,
{
    assert(1u64 << 0u64 == 1 && 1u64 << 1u64 == 2 && 1u64 << 2u64 == 4 && 1u64 << 3u64 == 8 && 1u64
        << 4u64 == 16 && 1u64 << 5u64 == 32 && 1u64 << 6u64 == 64 && 1u64 << 7u64 == 128)
        by (bit_vector);
}

/// A datagram with a foreign transaction id must not satisfy the wait,
/// and a later datagram with the awaited transaction id and action still
/// completes it.
pub proof fn lemma_stray_then_match(c: Correlator, stray: Seq<u8>, good: Seq<u8>)
    requires
        (match spec_decode_header(stray) {
            Ok((a, tid)) => tid != c.transaction_id,
            Err(_) => true,
        }),
        spec_decode_header(good) == Ok::<(Action, u32), DecodeError>(
            (c.expected_action, c.transaction_id),
        ),
        c.expected_action != Action::Error,
    ensures
        spec_classify(c.transaction_id, c.expected_action, stray) == DatagramClass::NotOurs,
        spec_classify(c.transaction_id, c.expected_action, good) == DatagramClass::Match,
{
}

} // verus!
