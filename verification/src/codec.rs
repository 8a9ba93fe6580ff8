//! Bidirectional mapping between protocol messages and their fixed-layout
//! big-endian byte sequences.  Every multi-byte integer travels in network
//! byte order; fixed byte arrays (hashes, ids, addresses) are copied
//! verbatim.  Encoding never fails; decoding rejects short buffers, an
//! action field that is not the opcode the decoder recognizes, and an
//! announce tail that is not a whole number of 6-byte peer entries.

use vstd::arithmetic::div_mod::lemma_fundamental_div_mod;
use vstd::arithmetic::div_mod::lemma_fundamental_div_mod_converse;
use vstd::prelude::*;

use crate::errors::DecodeError;
use crate::messages::Action;
use crate::messages::AnnounceInput;
use crate::messages::AnnounceOutput;
use crate::messages::AnnounceOutputView;
use crate::messages::ConnectInput;
use crate::messages::ConnectOutput;
use crate::messages::ErrorOutput;
use crate::messages::Peer;
use crate::messages::PeerView;
use crate::messages::spec_action_code;
use crate::messages::spec_action_from_code;
use crate::messages::spec_event_code;
use crate::wire::push_u16_be;
use crate::wire::push_u32_be;
use crate::wire::push_u64_be;
use crate::wire::read_u16_be;
use crate::wire::read_u32_be;
use crate::wire::read_u64_be;
use crate::wire::spec_u16_be;
use crate::wire::spec_u16_from_be;
use crate::wire::spec_u32_be;
use crate::wire::spec_u32_from_be;
use crate::wire::spec_u64_be;
use crate::wire::spec_u64_from_be;
use crate::wire::lemma_u16_be_round_trip;
use crate::wire::lemma_u32_be_round_trip;
use crate::wire::lemma_u64_be_round_trip;

verus! {

/// Spec-level value of an announce request, with the fixed byte arrays
/// as sequences.
#[verifier::ext_equal]
pub ghost struct AnnounceInputView {
    pub connection_id: u64,
    pub action: Action,
    pub transaction_id: u32,
    pub info_hash: Seq<u8>,
    pub peer_id: Seq<u8>,
    pub downloaded: u64,
    pub left: u64,
    pub uploaded: u64,
    pub event: crate::messages::Event,
    pub ip: Seq<u8>,
    pub key: u32,
    pub num_want: i32,
    pub port: u16,
}

impl View for AnnounceInput {
    type V = AnnounceInputView;

    open spec fn view(&self) -> AnnounceInputView {
        AnnounceInputView {
            connection_id: self.connection_id,
            action: self.action,
            transaction_id: self.transaction_id,
            info_hash: self.info_hash.0@,
            peer_id: self.peer_id.0@,
            downloaded: self.downloaded,
            left: self.left,
            uploaded: self.uploaded,
            event: self.event,
            ip: self.ip@,
            key: self.key,
            num_want: self.num_want,
            port: self.port,
        }
    }
}

/// Spec-level value of an error response.
#[verifier::ext_equal]
pub ghost struct ErrorOutputView {
    pub action: Action,
    pub transaction_id: u32,
    pub message: Seq<u8>,
}

impl View for ErrorOutput {
    type V = ErrorOutputView;

    open spec fn view(&self) -> ErrorOutputView {
        ErrorOutputView {
            action: self.action,
            transaction_id: self.transaction_id,
            message: self.message@,
        }
    }
}

// ---------------------------------------------------------------------
// connect request: connection_id (8) | action=0 (4) | transaction_id (4)
// ---------------------------------------------------------------------

/// The 16 bytes of a connect request.
pub open spec fn spec_encode_connect_input(m: ConnectInput) -> Seq<u8> {
    spec_u64_be(m.connection_id) + spec_u32_be(spec_action_code(m.action)) + spec_u32_be(
        m.transaction_id,
    )
}

/// The connect request read from a buffer: its first 16 bytes, with the
/// action field required to carry the connect opcode.
pub open spec fn spec_decode_connect_input(b: Seq<u8>) -> Result<ConnectInput, DecodeError> {
    if b.len() < 16 {
        Err(DecodeError::Truncated)
    } else if spec_u32_from_be(b.subrange(8, 12)) != spec_action_code(Action::Connect) {
        Err(DecodeError::UnknownAction)
    } else {
        Ok(
            ConnectInput {
                connection_id: spec_u64_from_be(b.subrange(0, 8)),
                action: Action::Connect,
                transaction_id: spec_u32_from_be(b.subrange(12, 16)),
            },
        )
    }
}

/// Encodes a connect request into its fixed 16-byte layout.
pub fn encode_connect_input(m: &ConnectInput) -> (r: Vec<u8>)
    ensures
        r@ == spec_encode_connect_input(*m),
        r@.len() == 16,
{
    let mut out: Vec<u8> = Vec::new();
    push_u64_be(&mut out, m.connection_id);
    push_u32_be(&mut out, m.action.code());
    push_u32_be(&mut out, m.transaction_id);
    assert(out@ =~= spec_encode_connect_input(*m));
    out
}

/// Decodes a connect request from a datagram.
pub fn decode_connect_input(b: &Vec<u8>) -> (r: Result<ConnectInput, DecodeError>)
    ensures
        r == spec_decode_connect_input(b@),
{
    let n: usize = b.len();
    if n < 16 {
        return Err(DecodeError::Truncated);
    }
    let action_code = read_u32_be(b, 8);
    if action_code != 0 {
        return Err(DecodeError::UnknownAction);
    }
    let connection_id = read_u64_be(b, 0);
    let transaction_id = read_u32_be(b, 12);
    Ok(ConnectInput { connection_id, action: Action::Connect, transaction_id })
}

/// A connect request decodes back to itself.
pub proof fn lemma_connect_input_round_trip(m: ConnectInput)
    requires
        m.action == Action::Connect,
    ensures
        spec_decode_connect_input(spec_encode_connect_input(m)) == Ok::<ConnectInput, DecodeError>(m),
{
    let b = spec_encode_connect_input(m);
    assert(b.subrange(0, 8) =~= spec_u64_be(m.connection_id));
    assert(b.subrange(8, 12) =~= spec_u32_be(spec_action_code(m.action)));
    assert(b.subrange(12, 16) =~= spec_u32_be(m.transaction_id));
    lemma_u64_be_round_trip(m.connection_id);
    lemma_u32_be_round_trip(spec_action_code(m.action));
    lemma_u32_be_round_trip(m.transaction_id);
}

/// A connect request puts the fixed protocol constant in bytes 0-7, the
/// connect opcode 0 in bytes 8-11, and the transaction id in bytes 12-15,
/// all big-endian.
pub proof fn lemma_connect_input_layout(transaction_id: u32)
    ensures
        ({
            let b = spec_encode_connect_input(
                ConnectInput {
                    connection_id: crate::messages::CONNECTION_ID,
                    action: Action::Connect,
                    transaction_id,
                },
            );
            b.len() == 16 && b.subrange(0, 8) == spec_u64_be(0x41727101980u64) && b.subrange(8, 12)
                == spec_u32_be(0u32) && b.subrange(12, 16) == spec_u32_be(transaction_id)
        }),
{
    let b = spec_encode_connect_input(
        ConnectInput {
            connection_id: crate::messages::CONNECTION_ID,
            action: Action::Connect,
            transaction_id,
        },
    );
    assert(b.subrange(0, 8) =~= spec_u64_be(0x41727101980u64));
    assert(b.subrange(8, 12) =~= spec_u32_be(0u32));
    assert(b.subrange(12, 16) =~= spec_u32_be(transaction_id));
}

// ----------------------------------------------------------------------
// connect response: action=0 (4) | transaction_id (4) | connection_id (8)
// ----------------------------------------------------------------------

/// The 16 bytes of a connect response.
pub open spec fn spec_encode_connect_output(m: ConnectOutput) -> Seq<u8> {
    spec_u32_be(spec_action_code(m.action)) + spec_u32_be(m.transaction_id) + spec_u64_be(
        m.connection_id,
    )
}

/// The connect response read from a buffer: its first 16 bytes, with the
/// action field required to carry the connect opcode.
pub open spec fn spec_decode_connect_output(b: Seq<u8>) -> Result<ConnectOutput, DecodeError> {
    if b.len() < 16 {
        Err(DecodeError::Truncated)
    } else if spec_u32_from_be(b.subrange(0, 4)) != spec_action_code(Action::Connect) {
        Err(DecodeError::UnknownAction)
    } else {
        Ok(
            ConnectOutput {
                action: Action::Connect,
                transaction_id: spec_u32_from_be(b.subrange(4, 8)),
                connection_id: spec_u64_from_be(b.subrange(8, 16)),
            },
        )
    }
}

/// Encodes a connect response into its fixed 16-byte layout.
pub fn encode_connect_output(m: &ConnectOutput) -> (r: Vec<u8>)
    ensures
        r@ == spec_encode_connect_output(*m),
        r@.len() == 16,
{
    let mut out: Vec<u8> = Vec::new();
    push_u32_be(&mut out, m.action.code());
    push_u32_be(&mut out, m.transaction_id);
    push_u64_be(&mut out, m.connection_id);
    assert(out@ =~= spec_encode_connect_output(*m));
    out
}

/// Decodes a connect response from a datagram.
pub fn decode_connect_output(b: &Vec<u8>) -> (r: Result<ConnectOutput, DecodeError>)
    ensures
        r == spec_decode_connect_output(b@),
{
    let n: usize = b.len();
    if n < 16 {
        return Err(DecodeError::Truncated);
    }
    let action_code = read_u32_be(b, 0);
    if action_code != 0 {
        return Err(DecodeError::UnknownAction);
    }
    let transaction_id = read_u32_be(b, 4);
    let connection_id = read_u64_be(b, 8);
    Ok(ConnectOutput { action: Action::Connect, transaction_id, connection_id })
}

/// A connect response decodes back to itself.
pub proof fn lemma_connect_output_round_trip(m: ConnectOutput)
    requires
        m.action == Action::Connect,
    ensures
        spec_decode_connect_output(spec_encode_connect_output(m)) == Ok::<ConnectOutput, DecodeError>(m),
{
    let b = spec_encode_connect_output(m);
    assert(b.subrange(0, 4) =~= spec_u32_be(spec_action_code(m.action)));
    assert(b.subrange(4, 8) =~= spec_u32_be(m.transaction_id));
    assert(b.subrange(8, 16) =~= spec_u64_be(m.connection_id));
    lemma_u32_be_round_trip(spec_action_code(m.action));
    lemma_u32_be_round_trip(m.transaction_id);
    lemma_u64_be_round_trip(m.connection_id);
}

// ---------------------------------------------------------------------
// leading header shared by every response: action (4) | transaction_id (4)
// ---------------------------------------------------------------------

/// The leading 8 bytes of any datagram: opcode and transaction id.
pub open spec fn spec_decode_header(b: Seq<u8>) -> Result<(Action, u32), DecodeError> {
    if b.len() < 8 {
        Err(DecodeError::Truncated)
    } else {
        match spec_action_from_code(spec_u32_from_be(b.subrange(0, 4))) {
            Some(a) => Ok((a, spec_u32_from_be(b.subrange(4, 8)))),
            None => Err(DecodeError::UnknownAction),
        }
    }
}

/// Decodes only the leading action and transaction id of a datagram, so a
/// waiter can decide whether the datagram is its own before decoding it
/// fully.
pub fn decode_header(b: &Vec<u8>) -> (r: Result<(Action, u32), DecodeError>)
    ensures
        r == spec_decode_header(b@),
{
    let n: usize = b.len();
    if n < 8 {
        return Err(DecodeError::Truncated);
    }
    let action_code = read_u32_be(b, 0);
    let transaction_id = read_u32_be(b, 4);
    match Action::from_code(action_code) {
        Some(a) => Ok((a, transaction_id)),
        None => Err(DecodeError::UnknownAction),
    }
}

// ----------------------------------------------------------------------------
// error response: action=3 (4) | transaction_id (4) | message (remaining bytes)
// ----------------------------------------------------------------------------

/// The bytes of an error response.
pub open spec fn spec_encode_error_output(v: ErrorOutputView) -> Seq<u8> {
    spec_u32_be(spec_action_code(v.action)) + spec_u32_be(v.transaction_id) + v.message
}

/// The error response read from a buffer: everything after the 8-byte
/// header is the human-readable message.
pub open spec fn spec_decode_error_output(b: Seq<u8>) -> Result<ErrorOutputView, DecodeError> {
    if b.len() < 8 {
        Err(DecodeError::Truncated)
    } else if spec_u32_from_be(b.subrange(0, 4)) != spec_action_code(Action::Error) {
        Err(DecodeError::UnknownAction)
    } else {
        Ok(
            ErrorOutputView {
                action: Action::Error,
                transaction_id: spec_u32_from_be(b.subrange(4, 8)),
                message: b.subrange(8, b.len() as int),
            },
        )
    }
}

/// Decodes an error response from a datagram.
pub fn decode_error_output(b: &Vec<u8>) -> (r: Result<ErrorOutput, DecodeError>)
    ensures
        (match r {
            Ok(m) => spec_decode_error_output(b@) == Ok::<ErrorOutputView, DecodeError>(m@),
            Err(e) => spec_decode_error_output(b@) == Err::<ErrorOutputView, DecodeError>(e),
        }),
{
    let n: usize = b.len();
    if n < 8 {
        return Err(DecodeError::Truncated);
    }
    let action_code = read_u32_be(b, 0);
    if action_code != 3 {
        return Err(DecodeError::UnknownAction);
    }
    let transaction_id = read_u32_be(b, 4);
    let mut message: Vec<u8> = Vec::new();
    let mut i: usize = 8;
    while i < n
        invariant
            8 <= i <= n,
            n == b@.len(),
            message@ =~= b@.subrange(8, i as int),
        decreases n - i,
    {
        message.push(b[i]);
        i += 1;
    }
    let r = ErrorOutput { action: Action::Error, transaction_id, message };
    proof {
        assert(r@ =~= spec_decode_error_output(b@)->Ok_0);
    }
    Ok(r)
}

/// An error response decodes back to itself.
pub proof fn lemma_error_output_round_trip(v: ErrorOutputView)
    requires
        v.action == Action::Error,
    ensures
        spec_decode_error_output(spec_encode_error_output(v)) == Ok::<ErrorOutputView, DecodeError>(v),
{
    let b = spec_encode_error_output(v);
    assert(b.subrange(0, 4) =~= spec_u32_be(spec_action_code(v.action)));
    assert(b.subrange(4, 8) =~= spec_u32_be(v.transaction_id));
    assert(b.subrange(8, b.len() as int) =~= v.message);
    lemma_u32_be_round_trip(spec_action_code(v.action));
    lemma_u32_be_round_trip(v.transaction_id);
    assert(spec_decode_error_output(b)->Ok_0 =~= v);
}

// ---------------------------------------------------------------------
// announce request: connection_id (8) | action=1 (4) | transaction_id (4)
// | info_hash (20) | peer_id (20) | downloaded (8) | left (8)
// | uploaded (8) | event (4) | ip (4) | key (4) | num_want (4) | port (2)
// ---------------------------------------------------------------------

/// Appends the 20 bytes of a fixed-size identifier verbatim.
fn push_bytes20(out: &mut Vec<u8>, a: &[u8; 20])
    ensures
        final(out)@ == old(out)@ + a@,
{
    let mut i: usize = 0;
    while i < 20
        invariant
            0 <= i <= 20,
            out@ =~= old(out)@ + a@.subrange(0, i as int),
        decreases 20 - i,
    {
        out.push(a[i]);
        i += 1;
    }
    assert(out@ =~= old(out)@ + a@);
}

/// Appends the 4 bytes of an address verbatim.
fn push_bytes4(out: &mut Vec<u8>, a: &[u8; 4])
    ensures
        final(out)@ == old(out)@ + a@,
{
    let mut i: usize = 0;
    while i < 4
        invariant
            0 <= i <= 4,
            out@ =~= old(out)@ + a@.subrange(0, i as int),
        decreases 4 - i,
    {
        out.push(a[i]);
        i += 1;
    }
    assert(out@ =~= old(out)@ + a@);
}

/// The 98 bytes of an announce request.
pub open spec fn spec_encode_announce_input(v: AnnounceInputView) -> Seq<u8> {
    spec_u64_be(v.connection_id) + spec_u32_be(spec_action_code(v.action)) + spec_u32_be(
        v.transaction_id,
    ) + v.info_hash + v.peer_id + spec_u64_be(v.downloaded) + spec_u64_be(v.left) + spec_u64_be(
        v.uploaded,
    ) + spec_u32_be(spec_event_code(v.event)) + v.ip + spec_u32_be(v.key) + spec_u32_be(
        v.num_want as u32,
    ) + spec_u16_be(v.port)
}

/// The announce request read from a buffer: its first 98 bytes, with the
/// action field required to carry the announce opcode; the event field is
/// an enumerated code too and an unrecognized value is rejected the same
/// way.
pub open spec fn spec_decode_announce_input(b: Seq<u8>) -> Result<AnnounceInputView, DecodeError> {
    if b.len() < 98 {
        Err(DecodeError::Truncated)
    } else if spec_u32_from_be(b.subrange(8, 12)) != spec_action_code(Action::Announce) {
        Err(DecodeError::UnknownAction)
    } else {
        match crate::messages::spec_event_from_code(spec_u32_from_be(b.subrange(80, 84))) {
            Option::None => Err(DecodeError::UnknownAction),
            Option::Some(event) => Ok(
                AnnounceInputView {
                    connection_id: spec_u64_from_be(b.subrange(0, 8)),
                    action: Action::Announce,
                    transaction_id: spec_u32_from_be(b.subrange(12, 16)),
                    info_hash: b.subrange(16, 36),
                    peer_id: b.subrange(36, 56),
                    downloaded: spec_u64_from_be(b.subrange(56, 64)),
                    left: spec_u64_from_be(b.subrange(64, 72)),
                    uploaded: spec_u64_from_be(b.subrange(72, 80)),
                    event,
                    ip: b.subrange(84, 88),
                    key: spec_u32_from_be(b.subrange(88, 92)),
                    num_want: spec_u32_from_be(b.subrange(92, 96)) as i32,
                    port: spec_u16_from_be(b.subrange(96, 98)),
                },
            ),
        }
    }
}

/// Encodes an announce request into its fixed 98-byte layout.
pub fn encode_announce_input(m: &AnnounceInput) -> (r: Vec<u8>)
    ensures
        r@ == spec_encode_announce_input(m@),
        r@.len() == 98,
{
    let mut out: Vec<u8> = Vec::new();
    push_u64_be(&mut out, m.connection_id);
    push_u32_be(&mut out, m.action.code());
    push_u32_be(&mut out, m.transaction_id);
    push_bytes20(&mut out, &m.info_hash.0);
    push_bytes20(&mut out, &m.peer_id.0);
    push_u64_be(&mut out, m.downloaded);
    push_u64_be(&mut out, m.left);
    push_u64_be(&mut out, m.uploaded);
    push_u32_be(&mut out, m.event.code());
    push_bytes4(&mut out, &m.ip);
    push_u32_be(&mut out, m.key);
    #[verifier::truncate]
    let num_want_wire: u32 = m.num_want as u32;
    push_u32_be(&mut out, num_want_wire);
    push_u16_be(&mut out, m.port);
    assert(out@ =~= spec_encode_announce_input(m@));
    out
}

/// An announce request decodes back to itself.
pub proof fn lemma_announce_input_round_trip(v: AnnounceInputView)
    requires
        v.action == Action::Announce,
        v.info_hash.len() == 20,
        v.peer_id.len() == 20,
        v.ip.len() == 4,
    ensures
        spec_decode_announce_input(spec_encode_announce_input(v)) == Ok::<
            AnnounceInputView,
            DecodeError,
        >(v),
{
    let b = spec_encode_announce_input(v);
    assert(b.len() == 98);
    assert(b.subrange(0, 8) =~= spec_u64_be(v.connection_id));
    assert(b.subrange(8, 12) =~= spec_u32_be(spec_action_code(v.action)));
    assert(b.subrange(12, 16) =~= spec_u32_be(v.transaction_id));
    assert(b.subrange(16, 36) =~= v.info_hash);
    assert(b.subrange(36, 56) =~= v.peer_id);
    assert(b.subrange(56, 64) =~= spec_u64_be(v.downloaded));
    assert(b.subrange(64, 72) =~= spec_u64_be(v.left));
    assert(b.subrange(72, 80) =~= spec_u64_be(v.uploaded));
    assert(b.subrange(80, 84) =~= spec_u32_be(spec_event_code(v.event)));
    assert(b.subrange(84, 88) =~= v.ip);
    assert(b.subrange(88, 92) =~= spec_u32_be(v.key));
    assert(b.subrange(92, 96) =~= spec_u32_be(v.num_want as u32));
    assert(b.subrange(96, 98) =~= spec_u16_be(v.port));
    lemma_u64_be_round_trip(v.connection_id);
    lemma_u32_be_round_trip(spec_action_code(v.action));
    lemma_u32_be_round_trip(v.transaction_id);
    lemma_u64_be_round_trip(v.downloaded);
    lemma_u64_be_round_trip(v.left);
    lemma_u64_be_round_trip(v.uploaded);
    lemma_u32_be_round_trip(spec_event_code(v.event));
    lemma_u32_be_round_trip(v.key);
    lemma_u32_be_round_trip(v.num_want as u32);
    lemma_u16_be_round_trip(v.port);
    crate::messages::lemma_event_code_round_trip(v.event);
    let nw = v.num_want;
    assert(((nw as u32) as i32) == nw) by (bit_vector);
    assert(spec_decode_announce_input(b)->Ok_0 =~= v);
}

// ---------------------------------------------------------------------
// announce response: action=1 (4) | transaction_id (4) | interval (4)
// | leechers (4) | seeders (4) | n x (ip (4) | port (2))
// ---------------------------------------------------------------------

/// The 6 bytes of one peer entry.
pub open spec fn spec_encode_peer(p: PeerView) -> Seq<u8> {
    p.ip + spec_u16_be(p.port)
}

/// The concatenated entries of a peer list, in order.
pub open spec fn spec_encode_peers(s: Seq<PeerView>) -> Seq<u8>
    decreases s.len(),
{
    if s.len() == 0 {
        Seq::empty()
    } else {
        spec_encode_peer(s[0]) + spec_encode_peers(s.drop_first())
    }
}

/// A peer entry carries a 4-byte address.
pub open spec fn spec_valid_peer(p: PeerView) -> bool {
    p.ip.len() == 4
}

/// Every entry of the list carries a 4-byte address.
pub open spec fn spec_valid_peers(s: Seq<PeerView>) -> bool {
    forall|k: int| 0 <= k < s.len() ==> spec_valid_peer(#[trigger] s[k])
}

/// A peer list encodes to exactly 6 bytes per entry.
pub proof fn lemma_encode_peers_len(s: Seq<PeerView>)
    requires
        spec_valid_peers(s),
    ensures
        spec_encode_peers(s).len() == 6 * s.len(),
    decreases s.len(),
{
    if s.len() > 0 {
        assert forall|k: int| 0 <= k < s.drop_first().len() implies spec_valid_peer(
            #[trigger] s.drop_first()[k],
        ) by {
            assert(s.drop_first()[k] == s[k + 1]);
        }
        lemma_encode_peers_len(s.drop_first());
        assert(spec_valid_peer(s[0]));
    }
}

/// Entry `k` of the list stands at bytes `6k .. 6k+6` of its encoding.
pub proof fn lemma_encode_peers_index(s: Seq<PeerView>, k: int)
    requires
        spec_valid_peers(s),
        0 <= k < s.len(),
    ensures
        spec_encode_peers(s).subrange(6 * k, 6 * k + 6) == spec_encode_peer(s[k]),
    decreases k,
{
    lemma_encode_peers_len(s);
    assert(spec_valid_peer(s[0]));
    let rest = s.drop_first();
    assert forall|j: int| 0 <= j < rest.len() implies spec_valid_peer(#[trigger] rest[j]) by {
        assert(rest[j] == s[j + 1]);
    }
    lemma_encode_peers_len(rest);
    if k == 0 {
        assert(spec_encode_peers(s).subrange(0, 6) =~= spec_encode_peer(s[0]));
    } else {
        lemma_encode_peers_index(rest, k - 1);
        assert(rest[k - 1] == s[k]);
        assert(spec_encode_peers(s).subrange(6 * k, 6 * k + 6) =~= spec_encode_peers(rest).subrange(
            6 * (k - 1),
            6 * (k - 1) + 6,
        ));
    }
}

/// Appending an entry appends its 6 bytes.
pub proof fn lemma_encode_peers_push(s: Seq<PeerView>, p: PeerView)
    ensures
        spec_encode_peers(s.push(p)) == spec_encode_peers(s) + spec_encode_peer(p),
    decreases s.len(),
{
    if s.len() == 0 {
        assert(s.push(p)[0] == p);
        assert(s.push(p).drop_first() =~= Seq::<PeerView>::empty());
        assert(s =~= Seq::<PeerView>::empty());
        assert(spec_encode_peers(Seq::<PeerView>::empty()) == Seq::<u8>::empty());
        assert(spec_encode_peers(s.push(p)) =~= spec_encode_peers(s) + spec_encode_peer(p));
    } else {
        lemma_encode_peers_push(s.drop_first(), p);
        assert(s.push(p)[0] == s[0]);
        assert(s.push(p).drop_first() =~= s.drop_first().push(p));
        assert(spec_encode_peer(s[0]) + (spec_encode_peers(s.drop_first()) + spec_encode_peer(p))
            =~= (spec_encode_peer(s[0]) + spec_encode_peers(s.drop_first())) + spec_encode_peer(p));
    }
}

/// The bytes of an announce response: the 20-byte header, then the peer
/// entries.
pub open spec fn spec_encode_announce_output(v: AnnounceOutputView) -> Seq<u8> {
    spec_u32_be(spec_action_code(v.action)) + spec_u32_be(v.transaction_id) + spec_u32_be(
        v.interval,
    ) + spec_u32_be(v.leechers) + spec_u32_be(v.seeders) + spec_encode_peers(v.peers)
}

/// Peer entry `k` of a decoded announce response buffer.
pub open spec fn spec_peer_view_at(b: Seq<u8>, k: int) -> PeerView {
    PeerView {
        ip: b.subrange(20 + 6 * k, 24 + 6 * k),
        port: spec_u16_from_be(b.subrange(24 + 6 * k, 26 + 6 * k)),
    }
}

/// The announce response read from a buffer: the fixed 20-byte header,
/// with the action field required to carry the announce opcode, then as
/// many 6-byte peer entries as the tail holds; a tail that is not a whole
/// number of entries is rejected.
pub open spec fn spec_decode_announce_output(b: Seq<u8>) -> Result<AnnounceOutputView, DecodeError> {
    if b.len() < 20 {
        Err(DecodeError::Truncated)
    } else if spec_u32_from_be(b.subrange(0, 4)) != spec_action_code(Action::Announce) {
        Err(DecodeError::UnknownAction)
    } else if (b.len() - 20) % 6 != 0 {
        Err(DecodeError::MalformedPeerList)
    } else {
        Ok(
            AnnounceOutputView {
                action: Action::Announce,
                transaction_id: spec_u32_from_be(b.subrange(4, 8)),
                interval: spec_u32_from_be(b.subrange(8, 12)),
                leechers: spec_u32_from_be(b.subrange(12, 16)),
                seeders: spec_u32_from_be(b.subrange(16, 20)),
                peers: Seq::new(((b.len() - 20) / 6) as nat, |k: int| spec_peer_view_at(b, k)),
            },
        )
    }
}

/// Encodes an announce response: the 20-byte header, then one 6-byte
/// entry per peer.
pub fn encode_announce_output(m: &AnnounceOutput) -> (r: Vec<u8>)
    ensures
        r@ == spec_encode_announce_output(m@),
{
    let mut out: Vec<u8> = Vec::new();
    push_u32_be(&mut out, m.action.code());
    push_u32_be(&mut out, m.transaction_id);
    push_u32_be(&mut out, m.interval);
    push_u32_be(&mut out, m.leechers);
    push_u32_be(&mut out, m.seeders);
    let ghost header: Seq<u8> = out@;
    let mut i: usize = 0;
    while i < m.peers.len()
        invariant
            0 <= i <= m.peers@.len(),
            out@ == header + spec_encode_peers(m@.peers.take(i as int)),
            m@.peers == m.peers@.map_values(|p: Peer| p@),
            header == spec_u32_be(spec_action_code(m.action)) + spec_u32_be(m.transaction_id)
                + spec_u32_be(m.interval) + spec_u32_be(m.leechers) + spec_u32_be(m.seeders),
        decreases m.peers@.len() - i,
    {
        let p = m.peers[i];
        push_bytes4(&mut out, &p.ip);
        push_u16_be(&mut out, p.port);
        proof {
            lemma_encode_peers_push(m@.peers.take(i as int), m@.peers[i as int]);
            assert(m@.peers.take(i + 1) =~= m@.peers.take(i as int).push(m@.peers[i as int]));
            assert(m@.peers[i as int] == p@);
            assert(out@ =~= header + spec_encode_peers(m@.peers.take(i + 1)));
        }
        i += 1;
    }
    proof {
        assert(m@.peers.take(m.peers@.len() as int) =~= m@.peers);
        assert(out@ =~= spec_encode_announce_output(m@));
    }
    out
}

/// Decodes an announce response from a datagram.
pub fn decode_announce_output(b: &Vec<u8>) -> (r: Result<AnnounceOutput, DecodeError>)
    ensures
        (match r {
            Ok(m) => spec_decode_announce_output(b@) == Ok::<AnnounceOutputView, DecodeError>(m@),
            Err(e) => spec_decode_announce_output(b@) == Err::<AnnounceOutputView, DecodeError>(e),
        }),
{
    let n: usize = b.len();
    if n < 20 {
        return Err(DecodeError::Truncated);
    }
    let action_code = read_u32_be(b, 0);
    if action_code != 1 {
        return Err(DecodeError::UnknownAction);
    }
    let tail = n - 20;
    if tail % 6 != 0 {
        return Err(DecodeError::MalformedPeerList);
    }
    let count = tail / 6;
    proof {
        lemma_fundamental_div_mod(tail as int, 6);
        assert(6 * count == tail);
    }
    let transaction_id = read_u32_be(b, 4);
    let interval = read_u32_be(b, 8);
    let leechers = read_u32_be(b, 12);
    let seeders = read_u32_be(b, 16);
    let mut peers: Vec<Peer> = Vec::new();
    let mut i: usize = 0;
    while i < count
        invariant
            0 <= i <= count,
            n == b@.len(),
            n >= 20,
            tail == n - 20,
            6 * count == tail,
            peers@.len() == i,
            forall|k: int| 0 <= k < i ==> #[trigger] peers@[k]@ == spec_peer_view_at(b@, k),
        decreases count - i,
    {
        let off = 20 + 6 * i;
        let ip: [u8; 4] = [b[off], b[off + 1], b[off + 2], b[off + 3]];
        let port = read_u16_be(b, off + 4);
        let p = Peer { ip, port };
        proof {
            assert(ip@ =~= b@.subrange(20 + 6 * (i as int), 24 + 6 * (i as int)));
            assert(b@.subrange(off + 4, off + 6) =~= b@.subrange(
                24 + 6 * (i as int),
                26 + 6 * (i as int),
            ));
            assert(p@ =~= spec_peer_view_at(b@, i as int));
        }
        peers.push(p);
        i += 1;
    }
    let r = AnnounceOutput { action: Action::Announce, transaction_id, interval, leechers, seeders, peers };
    proof {
        let d = spec_decode_announce_output(b@)->Ok_0;
        assert(r@.peers =~= d.peers);
        assert(r@ =~= d);
    }
    Ok(r)
}

/// A response under the announce opcode whose tail after the fixed
/// 20-byte header is not a whole number of 6-byte entries fails decoding
/// with `MalformedPeerList`, whatever its bytes hold.
pub proof fn lemma_malformed_tail_is_rejected(b: Seq<u8>)
    requires
        b.len() >= 20,
        spec_u32_from_be(b.subrange(0, 4)) == spec_action_code(Action::Announce),
        (b.len() - 20) % 6 != 0,
    ensures
        spec_decode_announce_output(b) == Err::<AnnounceOutputView, DecodeError>(
            DecodeError::MalformedPeerList,
        ),
{
}

/// An announce response decodes back to itself.
pub proof fn lemma_announce_output_round_trip(v: AnnounceOutputView)
    requires
        v.action == Action::Announce,
        spec_valid_peers(v.peers),
    ensures
        spec_decode_announce_output(spec_encode_announce_output(v)) == Ok::<
            AnnounceOutputView,
            DecodeError,
        >(v),
{
    let b = spec_encode_announce_output(v);
    lemma_encode_peers_len(v.peers);
    let len = v.peers.len() as int;
    assert(b.len() == 20 + 6 * len);
    assert(b.subrange(0, 4) =~= spec_u32_be(spec_action_code(v.action)));
    assert(b.subrange(4, 8) =~= spec_u32_be(v.transaction_id));
    assert(b.subrange(8, 12) =~= spec_u32_be(v.interval));
    assert(b.subrange(12, 16) =~= spec_u32_be(v.leechers));
    assert(b.subrange(16, 20) =~= spec_u32_be(v.seeders));
    lemma_u32_be_round_trip(spec_action_code(v.action));
    lemma_u32_be_round_trip(v.transaction_id);
    lemma_u32_be_round_trip(v.interval);
    lemma_u32_be_round_trip(v.leechers);
    lemma_u32_be_round_trip(v.seeders);
    lemma_fundamental_div_mod_converse(b.len() - 20, 6, len, 0);
    assert((b.len() - 20) % 6 == 0);
    assert(((b.len() - 20) / 6) == len);
    let d = spec_decode_announce_output(b)->Ok_0;
    assert forall|k: int| 0 <= k < len implies spec_peer_view_at(b, k) =~= v.peers[k] by {
        lemma_encode_peers_index(v.peers, k);
        assert(spec_encode_peers(v.peers).subrange(6 * k, 6 * k + 6) == spec_encode_peer(
            v.peers[k],
        ));
        assert(b.subrange(20 + 6 * k, 26 + 6 * k) =~= spec_encode_peers(v.peers).subrange(
            6 * k,
            6 * k + 6,
        ));
        assert(b.subrange(20 + 6 * k, 24 + 6 * k) =~= spec_encode_peer(v.peers[k]).subrange(0, 4));
        assert(b.subrange(24 + 6 * k, 26 + 6 * k) =~= spec_encode_peer(v.peers[k]).subrange(4, 6));
        assert(spec_encode_peer(v.peers[k]).subrange(0, 4) =~= v.peers[k].ip);
        assert(spec_encode_peer(v.peers[k]).subrange(4, 6) =~= spec_u16_be(v.peers[k].port));
        lemma_u16_be_round_trip(v.peers[k].port);
    }
    assert(d.peers =~= v.peers);
    assert(d =~= v);
}

} // verus!
