//! The two-message Noise handshake, driven one step at a time: the caller
//! moves the messages over the connection, the engine produces and checks
//! them. With a password the `NNpsk0` pattern is used, keyed by the derived
//! pre-shared key; without one, plain `NN`.
use vstd::prelude::*;
use crate::kdf::{derive_psk, max_password_len, psk_of, PSK_LEN};
use crate::negotiate::Role;
use crate::noise::{
    build_initiator, build_responder, handshake_accepts, handshake_my_turn, handshake_pattern,
    handshake_psk, handshake_remaining, hs_into_transport, hs_read_message, hs_set_psk,
    hs_write_message, ready_to_write, same_setup, supported_pattern, HANDSHAKE_MSG_ROOM,
};
use crate::transport::TransportSession;

verus! {

/// Protocol name used without a password.
pub const NOISE_PATTERN: &'static str = "Noise_NN_25519_ChaChaPoly_BLAKE2s";

/// Protocol name used with a password-derived pre-shared key.
pub const NOISE_PATTERN_PSK: &'static str = "Noise_NNpsk0_25519_ChaChaPoly_BLAKE2s";

/// Size of the buffers that handshake messages are written to and read into.
pub const HANDSHAKE_BUF_LEN: usize = 1024;

/// Where the exchange stands.
#[derive(Debug, Clone, Copy, PartialEq, Eq, Structural)]
pub enum HandshakePhase {
    /// Nothing sent or received yet.
    Idle,
    /// Initiator: the first message is sent, the reply is awaited.
    AwaitingReply,
    /// Responder: the first message is awaited.
    AwaitingFirst,
    /// Both messages went through: transport keys can be derived.
    Complete,
    /// A message was refused: this connection attempt is over.
    Failed,
}

/// Why the handshake could not go on.
#[derive(Debug, Clone, Copy, PartialEq, Eq, Structural)]
pub enum HandshakeError {
    /// The protocol state could not be built (bad parameters or key).
    Setup,
    /// A handshake message could not be produced or did not verify.
    Protocol,
}

/// One leg of the exchange over the connection.
#[derive(Debug, Clone, Copy, PartialEq, Eq, Structural)]
pub enum Leg {
    /// A handshake message handed to the caller to send.
    Send,
    /// A handshake message from the peer, checked.
    Receive,
}

/// The legs a completed handshake has gone through, in order: the
/// initiator writes then reads, the responder reads then writes.
pub open spec fn legs(role: Role) -> Seq<Leg> {
    match role {
        Role::Initiator => seq![Leg::Send, Leg::Receive],
        Role::Responder => seq![Leg::Receive, Leg::Send],
    }
}

/// A handshake in progress, for one role.
pub struct Handshake {
    state: snow::HandshakeState,
    role: Role,
    phase: HandshakePhase,
    trace: Ghost<Seq<Leg>>,
}

/// The protocol name for a session with or without a password.
pub fn pattern_name(with_password: bool) -> (r: &'static str)
    ensures
        with_password ==> r@ == NOISE_PATTERN_PSK@,
        !with_password ==> r@ == NOISE_PATTERN@,
{
    if with_password {
        NOISE_PATTERN_PSK
    } else {
        NOISE_PATTERN
    }
}

impl Handshake {
    /// The role this side plays.
    pub closed spec fn role_spec(&self) -> Role {
        self.role
    }

    /// Where the exchange stands.
    pub closed spec fn phase_spec(&self) -> HandshakePhase {
        self.phase
    }

    /// The pre-shared key installed in the protocol state (slot 0, the
    /// one the `psk0` modifier reads before the first message), if any.
    pub closed spec fn psk_spec(&self) -> Option<Seq<u8>> {
        handshake_psk(self.state, 0)
    }

    /// Whether the protocol state accepts `msg` as the peer's next message.
    pub closed spec fn accepts(&self, msg: Seq<u8>) -> bool {
        handshake_accepts(self.state, msg)
    }

    /// The legs gone through so far.
    pub closed spec fn trace_spec(&self) -> Seq<Leg> {
        self.trace@
    }

    /// The state invariant: the phase agrees with the role and with the
    /// legs gone through; a completed exchange is exactly one write and one
    /// read, in the order the role gives.
    pub open spec fn wf(&self) -> bool {
        &&& self.phase_spec() == HandshakePhase::Idle ==> self.trace_spec() == Seq::<Leg>::empty()
        &&& self.phase_spec() == HandshakePhase::AwaitingReply ==> self.role_spec()
            == Role::Initiator && self.trace_spec() == seq![Leg::Send]
        &&& self.phase_spec() == HandshakePhase::AwaitingFirst ==> self.role_spec()
            == Role::Responder && self.trace_spec() == Seq::<Leg>::empty()
        &&& self.phase_spec() == HandshakePhase::Complete ==> self.trace_spec() == legs(
            self.role_spec(),
        )
        &&& self.tracks_protocol()
    }

    /// The protocol state is of one of the two patterns, holds the
    /// pre-shared key where the pattern needs one, and agrees with the phase
    /// on the messages still to go (two before any, one after the first,
    /// none once complete) and on whose turn it is to write.
    pub closed spec fn tracks_protocol(&self) -> bool {
        &&& supported_pattern(handshake_pattern(self.state))
        &&& handshake_pattern(self.state) == NOISE_PATTERN_PSK@ ==> handshake_psk(self.state, 0) is Some
        &&& self.phase == HandshakePhase::Idle ==> handshake_remaining(self.state) == 2
            && handshake_my_turn(self.state) == (self.role == Role::Initiator)
        &&& self.phase == HandshakePhase::AwaitingFirst ==> handshake_remaining(self.state) == 2
            && !handshake_my_turn(self.state)
        &&& self.phase == HandshakePhase::AwaitingReply ==> handshake_remaining(self.state) == 1
            && !handshake_my_turn(self.state)
        &&& self.phase == HandshakePhase::Complete ==> handshake_remaining(self.state) == 0
    }

    /// The Noise protocol name the protocol state was built from.
    pub closed spec fn pattern_spec(&self) -> Seq<char> {
        handshake_pattern(self.state)
    }

    /// The role this side plays.
    pub fn role(&self) -> (r: Role)
        ensures
            r == self.role_spec(),
    {
        self.role
    }

    /// Where the exchange stands.
    pub fn phase(&self) -> (r: HandshakePhase)
        ensures
            r == self.phase_spec(),
    {
        self.phase
    }

    /// Prepares a handshake for `role`. With a pre-shared key the `NNpsk0`
    /// pattern is used and the key is installed before any message; a key
    /// that is not 32 bytes long is refused.
    pub fn with_psk(role: Role, psk: Option<&[u8]>) -> (r: Result<Handshake, HandshakeError>)
        ensures
            r is Ok ==> r->Ok_0.role_spec() == role && r->Ok_0.phase_spec() == HandshakePhase::Idle
                && r->Ok_0.wf(),
            r is Err ==> r == Err::<Handshake, HandshakeError>(HandshakeError::Setup),
            psk is Some && psk->Some_0@.len() != PSK_LEN ==> r is Err,
            psk is None || psk->Some_0@.len() == PSK_LEN ==> r is Ok,
            r is Ok && psk is Some ==> r->Ok_0.psk_spec() == Some(psk->Some_0@),
            r is Ok && psk is None ==> r->Ok_0.psk_spec() is None,
            r is Ok && psk is Some ==> r->Ok_0.pattern_spec() == NOISE_PATTERN_PSK@,
            r is Ok && psk is None ==> r->Ok_0.pattern_spec() == NOISE_PATTERN@,
    {
        let name = pattern_name(psk.is_some());
        proof {
            reveal_strlit("Noise_NN_25519_ChaChaPoly_BLAKE2s");
            reveal_strlit("Noise_NNpsk0_25519_ChaChaPoly_BLAKE2s");
            assert(NOISE_PATTERN@.len() != NOISE_PATTERN_PSK@.len());
        }
        let built = match role {
            Role::Initiator => build_initiator(name),
            Role::Responder => build_responder(name),
        };
        let mut state = match built {
            Ok(s) => s,
            Err(_) => return Err(HandshakeError::Setup),
        };
        match psk {
            Some(key) => {
                if hs_set_psk(&mut state, 0, key).is_err() {
                    return Err(HandshakeError::Setup);
                }
            },
            None => {},
        }
        Ok(
            Handshake {
                state,
                role,
                phase: HandshakePhase::Idle,
                trace: Ghost(Seq::empty()),
            },
        )
    }

    /// Prepares a handshake for `role`, keyed by `password` when one is
    /// given: its pre-shared key is the one the password derives.
    pub fn new(role: Role, password: Option<&[u8]>) -> (r: Result<Handshake, HandshakeError>)
        requires
            password is Some ==> password->Some_0@.len() < max_password_len(),
        ensures
            r is Ok ==> r->Ok_0.role_spec() == role && r->Ok_0.phase_spec() == HandshakePhase::Idle
                && r->Ok_0.wf(),
            r is Ok,
            r is Ok && password is Some ==> r->Ok_0.psk_spec() == Some(psk_of(password->Some_0@)),
            r is Ok && password is None ==> r->Ok_0.psk_spec() is None,
            r is Ok && password is Some ==> r->Ok_0.pattern_spec() == NOISE_PATTERN_PSK@,
            r is Ok && password is None ==> r->Ok_0.pattern_spec() == NOISE_PATTERN@,
    {
        match password {
            Some(p) => {
                let key = derive_psk(p);
                Handshake::with_psk(role, Some(key.as_slice()))
            },
            None => Handshake::with_psk(role, None),
        }
    }

    /// First step. The initiator writes the first message, which the caller
    /// sends, and then awaits the reply; the responder sends nothing and
    /// awaits the first message.
    pub fn start(&mut self) -> (r: Result<Option<Vec<u8>>, HandshakeError>)
        requires
            old(self).phase_spec() == HandshakePhase::Idle,
            old(self).wf(),
        ensures
            final(self).wf(),
            final(self).role_spec() == old(self).role_spec(),
            final(self).psk_spec() == old(self).psk_spec(),
            final(self).pattern_spec() == old(self).pattern_spec(),
            old(self).role_spec() == Role::Responder ==> r == Ok::<Option<Vec<u8>>, HandshakeError>(None)
                && final(self).phase_spec() == HandshakePhase::AwaitingFirst,
            old(self).role_spec() == Role::Initiator ==> r is Ok && r->Ok_0 is Some
                && final(self).phase_spec() == HandshakePhase::AwaitingReply,
    {
        match self.role {
            Role::Responder => {
                self.phase = HandshakePhase::AwaitingFirst;
                Ok(None)
            },
            Role::Initiator => {
                match self.write_step() {
                    Some(msg) => {
                        self.phase = HandshakePhase::AwaitingReply;
                        self.trace = Ghost(Seq::empty().push(Leg::Send));
                        assert(self.trace@ =~= seq![Leg::Send]);
                        Ok(Some(msg))
                    },
                    None => {
                        self.phase = HandshakePhase::Failed;
                        Err(HandshakeError::Protocol)
                    },
                }
            },
        }
    }

    /// Handles the message the peer sent. The initiator checks the reply
    /// and is done; the responder checks the first message and writes the
    /// reply, which the caller sends. A message that does not verify ends
    /// the attempt.
    pub fn receive(&mut self, msg: &[u8]) -> (r: Result<Option<Vec<u8>>, HandshakeError>)
        requires
            old(self).phase_spec() == HandshakePhase::AwaitingReply || old(self).phase_spec()
                == HandshakePhase::AwaitingFirst,
            old(self).wf(),
        ensures
            final(self).wf(),
            final(self).role_spec() == old(self).role_spec(),
            final(self).psk_spec() == old(self).psk_spec(),
            final(self).pattern_spec() == old(self).pattern_spec(),
            r is Err ==> r == Err::<Option<Vec<u8>>, HandshakeError>(HandshakeError::Protocol)
                && final(self).phase_spec() == HandshakePhase::Failed,
            r is Ok ==> final(self).phase_spec() == HandshakePhase::Complete,
            msg@.len() <= HANDSHAKE_BUF_LEN ==> (r is Ok <==> old(self).accepts(msg@)),
            old(self).phase_spec() == HandshakePhase::AwaitingReply && r is Ok ==> r->Ok_0 is None,
            old(self).phase_spec() == HandshakePhase::AwaitingFirst && r is Ok ==> r->Ok_0 is Some,
    {
        let mut payload: Vec<u8> = vec![0u8; HANDSHAKE_BUF_LEN];
        let read = hs_read_message(&mut self.state, msg, &mut payload);
        if read.is_err() {
            self.phase = HandshakePhase::Failed;
            return Err(HandshakeError::Protocol);
        }
        self.trace = Ghost(self.trace@.push(Leg::Receive));
        if self.phase == HandshakePhase::AwaitingReply {
            self.phase = HandshakePhase::Complete;
            assert(self.trace@ =~= legs(self.role));
            return Ok(None);
        }
        match self.write_step() {
            Some(reply) => {
                self.phase = HandshakePhase::Complete;
                self.trace = Ghost(self.trace@.push(Leg::Send));
                assert(self.trace@ =~= legs(self.role));
                Ok(Some(reply))
            },
            None => {
                self.phase = HandshakePhase::Failed;
                Err(HandshakeError::Protocol)
            },
        }
    }

    /// Writes this side's handshake message, with an empty payload.
    fn write_step(&mut self) -> (r: Option<Vec<u8>>)
        ensures
            final(self).role_spec() == old(self).role_spec(),
            final(self).psk_spec() == old(self).psk_spec(),
            final(self).pattern_spec() == old(self).pattern_spec(),
            final(self).phase_spec() == old(self).phase_spec(),
            final(self).trace_spec() == old(self).trace_spec(),
            same_setup(old(self).state, final(self).state),
            ready_to_write(old(self).state) ==> r is Some,
            r is Some ==> handshake_remaining(final(self).state) + 1 == handshake_remaining(
                old(self).state,
            ) && !handshake_my_turn(final(self).state),
            r is None ==> handshake_remaining(final(self).state) == handshake_remaining(
                old(self).state,
            ) && handshake_my_turn(final(self).state) == handshake_my_turn(old(self).state),
    {
        let mut out: Vec<u8> = vec![0u8; HANDSHAKE_BUF_LEN];
        let empty: Vec<u8> = Vec::new();
        match hs_write_message(&mut self.state, empty.as_slice(), &mut out) {
            Ok(n) => {
                let mut msg: Vec<u8> = Vec::with_capacity(n);
                let mut i: usize = 0;
                while i < n
                    invariant
                        n <= out@.len(),
                        i <= n,
                        msg@ =~= out@.subrange(0, i as int),
                    decreases n - i,
                {
                    msg.push(out[i]);
                    i = i + 1;
                }
                Some(msg)
            },
            Err(_) => None,
        }
    }

    /// Derives the transport session of a completed handshake, at key
    /// generation zero in both directions.
    pub fn finish(self) -> (r: Result<TransportSession, HandshakeError>)
        requires
            self.wf(),
            self.phase_spec() == HandshakePhase::Complete,
        ensures
            r is Ok,
            r->Ok_0.wf(),
            r->Ok_0.role_spec() == self.role_spec(),
            r->Ok_0.send_generation() == 0 && r->Ok_0.receive_generation() == 0,
    {
        match hs_into_transport(self.state) {
            Ok(ts) => Ok(TransportSession::from_state(ts, self.role)),
            Err(_) => Err(HandshakeError::Protocol),
        }
    }
}

/// A completed handshake made exactly two legs over the connection, one
/// write and one read; the initiator wrote first, the responder read first.
pub proof fn lemma_complete_is_one_write_one_read(h: Handshake)
    requires
        h.wf(),
        h.phase_spec() == HandshakePhase::Complete,
    ensures
        h.trace_spec().len() == 2,
        h.trace_spec()[0] != h.trace_spec()[1],
        h.trace_spec()[0] == Leg::Send <==> h.role_spec() == Role::Initiator,
{
}

/// Two handshakes prepared with equal passwords hold the same pre-shared
/// key in their protocol states, whatever their roles: the key depends on
/// the password alone.
pub proof fn lemma_equal_passwords_install_equal_keys(
    a: Handshake,
    b: Handshake,
    pa: Seq<u8>,
    pb: Seq<u8>,
)
    requires
        a.psk_spec() == Some(psk_of(pa)),
        b.psk_spec() == Some(psk_of(pb)),
        pa == pb,
    ensures
        a.psk_spec() == b.psk_spec(),
{
}

} // verus!
