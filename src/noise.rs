//! The Noise protocol library (snow) as this crate relies on it: its types,
//! names for what its state holds, and one wrapper per operation, each with
//! what snow's source guarantees.
use vstd::prelude::*;
use crate::handshake::{NOISE_PATTERN, NOISE_PATTERN_PSK};

verus! {

/// Length of the authentication tag that snow's ChaCha20-Poly1305 appends.
pub const TAG_LEN: usize = 16;

/// Largest Noise message snow reads or writes, in bytes.
pub const MAX_NOISE_MSG_LEN: usize = 65535;

/// Room that any handshake message of this crate's two patterns, with an
/// empty payload, fits in (an ephemeral key and a tag: 48 bytes).
pub const HANDSHAKE_MSG_ROOM: usize = 64;

#[verifier::external_type_specification]
#[verifier::external_body]
pub struct ExHandshakeState(snow::HandshakeState);

#[verifier::external_type_specification]
#[verifier::external_body]
pub struct ExTransportState(snow::TransportState);

#[verifier::external_type_specification]
#[verifier::external_body]
pub struct ExNoiseError(snow::Error);

/// The protocol name a handshake state was built from.
pub uninterp spec fn handshake_pattern(hs: snow::HandshakeState) -> Seq<char>;

/// The pre-shared key installed at slot `i`, if any.
pub uninterp spec fn handshake_psk(hs: snow::HandshakeState, i: nat) -> Option<Seq<u8>>;

/// Handshake messages still to be written or read before the handshake is
/// finished (snow's `is_handshake_finished` holds exactly when this is 0).
pub uninterp spec fn handshake_remaining(hs: snow::HandshakeState) -> nat;

/// Whether the next handshake message is this side's to write (snow's
/// `is_my_turn`).
pub uninterp spec fn handshake_my_turn(hs: snow::HandshakeState) -> bool;

/// Whether the handshake state accepts `msg` as the peer's next message.
pub uninterp spec fn handshake_accepts(hs: snow::HandshakeState, msg: Seq<u8>) -> bool;

/// Whether the pattern of a transport state is one-way.
pub uninterp spec fn transport_one_way(ts: snow::TransportState) -> bool;

/// The nonce of the sending cipher (snow's `TransportState::sending_nonce`).
pub uninterp spec fn sending_nonce(ts: snow::TransportState) -> nat;

/// The ciphertext the sending cipher makes of `payload` under its current
/// key and nonce.
pub uninterp spec fn transport_sealed(ts: snow::TransportState, payload: Seq<u8>) -> Seq<u8>;

/// Whether `msg` authenticates under the receiving cipher's current key and
/// nonce (and that nonce is not used up).
pub uninterp spec fn transport_opens(ts: snow::TransportState, msg: Seq<u8>) -> bool;

/// The plaintext the receiving cipher recovers from `msg`.
pub uninterp spec fn transport_opened(ts: snow::TransportState, msg: Seq<u8>) -> Seq<u8>;

/// Whether `name` is one of the two protocol names this crate uses.
pub open spec fn supported_pattern(name: Seq<char>) -> bool {
    name == NOISE_PATTERN@ || name == NOISE_PATTERN_PSK@
}

/// Pattern and installed keys are the same in both states.
pub open spec fn same_setup(a: snow::HandshakeState, b: snow::HandshakeState) -> bool {
    &&& handshake_pattern(b) == handshake_pattern(a)
    &&& forall|i: nat| #[trigger] handshake_psk(b, i) == handshake_psk(a, i)
}

/// A state of one of this crate's patterns that can write its next message:
/// its turn, a message left, and the pre-shared key in place where the
/// pattern needs one. (The one DH step of these patterns, the responder's,
/// comes after it has read the initiator's ephemeral key.)
pub open spec fn ready_to_write(hs: snow::HandshakeState) -> bool {
    &&& supported_pattern(handshake_pattern(hs))
    &&& handshake_my_turn(hs)
    &&& handshake_remaining(hs) > 0
    &&& handshake_pattern(hs) == NOISE_PATTERN_PSK@ ==> handshake_psk(hs, 0) is Some
}

/// Relies on snow's `FromStr` for `NoiseParams`, then
/// `Builder::new(params).build_initiator()`: a fresh handshake state for
/// the side that sends the first message, with no pre-shared key yet. Both
/// names this crate uses parse, need no static keys, and name primitives of
/// snow's default resolver, so building succeeds; their patterns have two
/// messages.
#[verifier::external_body]
pub(crate) fn build_initiator(name: &str) -> (r: Result<snow::HandshakeState, snow::Error>)
    ensures
        supported_pattern(name@) ==> r is Ok && handshake_remaining(r->Ok_0) == 2,
        r is Ok ==> handshake_pattern(r->Ok_0) == name@ && handshake_psk(r->Ok_0, 0) is None
            && handshake_my_turn(r->Ok_0),
{
    let params: snow::params::NoiseParams = name.parse()?;
    snow::Builder::new(params).build_initiator()
}

/// Relies on snow's `FromStr` for `NoiseParams`, then
/// `Builder::new(params).build_responder()`: a fresh handshake state for
/// the side that receives the first message, on the same terms.
#[verifier::external_body]
pub(crate) fn build_responder(name: &str) -> (r: Result<snow::HandshakeState, snow::Error>)
    ensures
        supported_pattern(name@) ==> r is Ok && handshake_remaining(r->Ok_0) == 2,
        r is Ok ==> handshake_pattern(r->Ok_0) == name@ && handshake_psk(r->Ok_0, 0) is None
            && !handshake_my_turn(r->Ok_0),
{
    let params: snow::params::NoiseParams = name.parse()?;
    snow::Builder::new(params).build_responder()
}

/// Relies on snow's `HandshakeState::set_psk`: it installs a 32-byte key
/// at one of the ten slots and refuses any other key or slot; nothing else
/// changes.
#[verifier::external_body]
pub(crate) fn hs_set_psk(hs: &mut snow::HandshakeState, location: usize, key: &[u8]) -> (r: Result<
    (),
    snow::Error,
>)
    ensures
        key@.len() != 32 ==> r is Err,
        key@.len() == 32 && location < 10 ==> r is Ok,
        r is Ok ==> handshake_psk(*final(hs), location as nat) == Some(key@),
        r is Err ==> handshake_psk(*final(hs), location as nat) == handshake_psk(
            *old(hs),
            location as nat,
        ),
        handshake_pattern(*final(hs)) == handshake_pattern(*old(hs)),
        handshake_remaining(*final(hs)) == handshake_remaining(*old(hs)),
        handshake_my_turn(*final(hs)) == handshake_my_turn(*old(hs)),
{
    hs.set_psk(location, key)
}

/// Relies on snow's `HandshakeState::write_message`: on success the
/// message occupies the first `n` bytes of `out`, which keeps its length,
/// the handshake moves one message on and the turn passes to the peer; on
/// failure it stays where it was. A state ready to write, with an empty
/// payload and room for the message, succeeds.
#[verifier::external_body]
pub(crate) fn hs_write_message(hs: &mut snow::HandshakeState, payload: &[u8], out: &mut Vec<u8>) -> (r:
    Result<usize, snow::Error>)
    ensures
        final(out)@.len() == old(out)@.len(),
        ready_to_write(*old(hs)) && payload@.len() == 0 && old(out)@.len() >= HANDSHAKE_MSG_ROOM
            ==> r is Ok,
        r is Ok ==> r->Ok_0 <= old(out)@.len(),
        r is Ok ==> handshake_remaining(*final(hs)) + 1 == handshake_remaining(*old(hs))
            && !handshake_my_turn(*final(hs)),
        r is Err ==> handshake_remaining(*final(hs)) == handshake_remaining(*old(hs))
            && handshake_my_turn(*final(hs)) == handshake_my_turn(*old(hs)),
        same_setup(*old(hs), *final(hs)),
{
    hs.write_message(payload, out.as_mut_slice())
}

/// Relies on snow's `HandshakeState::read_message`: given room for the
/// payload, it succeeds exactly on a message the state accepts, writing
/// the payload (of `n` bytes) to `out`, which keeps its length; the
/// handshake moves one message on and the turn passes to this side. On
/// failure it stays where it was.
#[verifier::external_body]
pub(crate) fn hs_read_message(hs: &mut snow::HandshakeState, message: &[u8], out: &mut Vec<u8>) -> (r:
    Result<usize, snow::Error>)
    ensures
        final(out)@.len() == old(out)@.len(),
        message@.len() <= old(out)@.len() ==> (r is Ok <==> handshake_accepts(*old(hs), message@)),
        r is Ok ==> r->Ok_0 <= old(out)@.len(),
        r is Ok ==> handshake_remaining(*final(hs)) + 1 == handshake_remaining(*old(hs))
            && handshake_my_turn(*final(hs)),
        r is Err ==> handshake_remaining(*final(hs)) == handshake_remaining(*old(hs))
            && handshake_my_turn(*final(hs)) == handshake_my_turn(*old(hs)),
        same_setup(*old(hs), *final(hs)),
{
    hs.read_message(message, out.as_mut_slice())
}

/// Relies on snow's `HandshakeState::into_transport_mode`: the pair of
/// directional cipher states of a handshake, which it refuses only while
/// messages remain. The final message keyed both ciphers with nonce 0; the
/// pattern, and with it being one-way, carries over.
#[verifier::external_body]
pub(crate) fn hs_into_transport(hs: snow::HandshakeState) -> (r: Result<
    snow::TransportState,
    snow::Error,
>)
    ensures
        handshake_remaining(hs) == 0 ==> r is Ok,
        r is Ok ==> sending_nonce(r->Ok_0) == 0,
        r is Ok && supported_pattern(handshake_pattern(hs)) ==> !transport_one_way(r->Ok_0),
{
    hs.into_transport_mode()
}

/// Relies on snow's `TransportState::write_message`: it refuses a payload
/// whose ciphertext (payload and 16-byte tag) would not fit in `out` or in
/// a Noise message, and a sending nonce that is used up; otherwise, on a
/// two-way pattern (whose ciphers are keyed), it encrypts. The ciphertext
/// fills the first `n` bytes of `out`, is exactly that long, and uses up one
/// nonce.
#[verifier::external_body]
pub(crate) fn ts_write_message(ts: &mut snow::TransportState, payload: &[u8], out: &mut Vec<u8>) -> (r:
    Result<usize, snow::Error>)
    ensures
        final(out)@.len() == old(out)@.len(),
        payload@.len() + TAG_LEN > old(out)@.len() ==> r is Err,
        payload@.len() + TAG_LEN > MAX_NOISE_MSG_LEN ==> r is Err,
        r is Ok ==> r->Ok_0 == payload@.len() + TAG_LEN,
        r is Ok ==> final(out)@.subrange(0, r->Ok_0 as int) == transport_sealed(*old(ts), payload@),
        payload@.len() + TAG_LEN <= old(out)@.len() && payload@.len() + TAG_LEN
            <= MAX_NOISE_MSG_LEN && sending_nonce(*old(ts)) < u64::MAX && !transport_one_way(
            *old(ts),
        ) ==> r is Ok,
        r is Ok ==> sending_nonce(*final(ts)) == sending_nonce(*old(ts)) + 1,
        r is Err ==> sending_nonce(*final(ts)) == sending_nonce(*old(ts)),
        transport_one_way(*final(ts)) == transport_one_way(*old(ts)),
{
    ts.write_message(payload, out.as_mut_slice())
}

/// Relies on snow's `TransportState::read_message`: it refuses a message
/// shorter than the 16-byte tag, or whose plaintext would not fit in `out`;
/// otherwise it succeeds exactly when the message authenticates under the
/// receiving cipher. The plaintext, the message without its tag, fills the
/// first `n` bytes of `out`. The sending cipher is untouched.
#[verifier::external_body]
pub(crate) fn ts_read_message(ts: &mut snow::TransportState, message: &[u8], out: &mut Vec<u8>) -> (r:
    Result<usize, snow::Error>)
    ensures
        final(out)@.len() == old(out)@.len(),
        message@.len() < TAG_LEN ==> r is Err,
        message@.len() > MAX_NOISE_MSG_LEN ==> r is Err,
        message@.len() >= TAG_LEN && message@.len() - TAG_LEN > old(out)@.len() ==> r is Err,
        TAG_LEN <= message@.len() <= MAX_NOISE_MSG_LEN && message@.len() - TAG_LEN <= old(
            out,
        )@.len() ==> (r is Ok <==> transport_opens(*old(ts), message@)),
        r is Ok ==> r->Ok_0 + TAG_LEN == message@.len(),
        r is Ok ==> final(out)@.subrange(0, r->Ok_0 as int) == transport_opened(
            *old(ts),
            message@,
        ),
        sending_nonce(*final(ts)) == sending_nonce(*old(ts)),
        transport_one_way(*final(ts)) == transport_one_way(*old(ts)),
{
    ts.read_message(message, out.as_mut_slice())
}

/// Relies on snow's `TransportState::rekey_outgoing`: advances the key of
/// the sending direction, leaving its nonce as it was.
#[verifier::external_body]
pub(crate) fn ts_rekey_outgoing(ts: &mut snow::TransportState)
    ensures
        sending_nonce(*final(ts)) == sending_nonce(*old(ts)),
        transport_one_way(*final(ts)) == transport_one_way(*old(ts)),
{
    ts.rekey_outgoing()
}

/// Relies on snow's `TransportState::rekey_incoming`: advances the key of
/// the receiving direction; the sending cipher is untouched.
#[verifier::external_body]
pub(crate) fn ts_rekey_incoming(ts: &mut snow::TransportState)
    ensures
        sending_nonce(*final(ts)) == sending_nonce(*old(ts)),
        transport_one_way(*final(ts)) == transport_one_way(*old(ts)),
{
    ts.rekey_incoming()
}

} // verus!
