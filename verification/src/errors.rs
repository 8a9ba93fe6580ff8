//! Error taxonomy of the tracker client.  Decoding failures are local and
//! are caught at the codec boundary; tracker errors are what `announce`
//! surfaces to its caller.

use vstd::prelude::*;

verus! {

/// Why a datagram could not be decoded as the message a decoder expects.
#[derive(Clone, Copy, Debug, PartialEq, Eq, Structural)]
pub enum DecodeError {
    /// Fewer bytes are present than the fixed layout requires.
    Truncated,
    /// The leading action field does not carry the opcode the decoder
    /// recognizes.
    UnknownAction,
    /// The tail after the fixed announce-response header is not an exact
    /// multiple of the 6-byte peer entry size.
    MalformedPeerList,
}

/// Why an exchange with the tracker failed, as surfaced to the caller.
#[derive(Clone, Debug, PartialEq, Eq)]
pub enum TrackerError {
    /// Every attempt of the retry schedule elapsed without a matching
    /// response.
    Timeout,
    /// The tracker answered with an error response; the payload is the
    /// human-readable message it carried.
    TrackerRejected(Vec<u8>),
    /// The caller cancelled the exchange at a scheduling point.
    Cancelled,
    /// A connection id was no longer inside its 60-second window.
    ConnectionExpired,
}

} // verus!
