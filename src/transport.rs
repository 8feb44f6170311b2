//! The post-handshake session: a sending and a receiving cipher state, each
//! rekeyed after every message, and the pump that turns queued lines and
//! socket reads into actions.
use vstd::prelude::*;
use crate::message::{strip_zeros, trim_padding, wipe, CIPHERTEXT_LEN, PLAINTEXT_LEN};
use crate::negotiate::Role;
use crate::noise::{
    sending_nonce, transport_one_way, transport_opened, transport_opens, transport_sealed,
    ts_read_message, ts_rekey_incoming, ts_rekey_outgoing,
    ts_write_message, TAG_LEN,
};

verus! {

/// Why a message could not be sent or received.
#[derive(Debug, Clone, Copy, PartialEq, Eq, Structural)]
pub enum TransportError {
    /// The plaintext is longer than the per-message cap; nothing was sent.
    TooLong,
    /// The key generation counter of this direction is used up.
    Exhausted,
    /// The cipher refused to encrypt.
    Encrypt,
    /// The ciphertext did not authenticate under the current key.
    Decrypt,
}

/// The two directional cipher states of an established connection, with
/// the number of rekeys each direction has gone through.
pub struct TransportSession {
    state: snow::TransportState,
    role: Role,
    sent: u64,
    received: u64,
}

impl TransportSession {
    /// Key generation of the sending direction: messages sent so far.
    pub closed spec fn send_generation(&self) -> nat {
        self.sent as nat
    }

    /// Key generation of the receiving direction: messages accepted so far.
    pub closed spec fn receive_generation(&self) -> nat {
        self.received as nat
    }

    /// The role this side played in the handshake.
    pub closed spec fn role_spec(&self) -> Role {
        self.role
    }

    /// The ciphertext the sending key, at its current generation, makes of
    /// `plaintext`.
    pub closed spec fn sealed(&self, plaintext: Seq<u8>) -> Seq<u8> {
        transport_sealed(self.state, plaintext)
    }

    /// Whether `ciphertext` authenticates under the receiving key at its
    /// current generation.
    pub closed spec fn opens(&self, ciphertext: Seq<u8>) -> bool {
        transport_opens(self.state, ciphertext)
    }

    /// The plaintext the receiving key, at its current generation, recovers
    /// from `ciphertext`.
    pub closed spec fn opened(&self, ciphertext: Seq<u8>) -> Seq<u8> {
        transport_opened(self.state, ciphertext)
    }

    /// The state invariant: the cipher state is two-way, and the sending
    /// generation counts the nonces the sending cipher has used.
    pub closed spec fn wf(&self) -> bool {
        &&& !transport_one_way(self.state)
        &&& sending_nonce(self.state) == self.sent as nat
    }

    /// A session at generation zero in both directions, over the cipher
    /// states of a two-way handshake that has not sent yet.
    pub(crate) fn from_state(state: snow::TransportState, role: Role) -> (r: TransportSession)
        requires
            !transport_one_way(state),
            sending_nonce(state) == 0,
        ensures
            r.wf(),
            r.role_spec() == role,
            r.send_generation() == 0,
            r.receive_generation() == 0,
    {
        TransportSession { state, role, sent: 0, received: 0 }
    }

    /// The role this side played in the handshake.
    pub fn role(&self) -> (r: Role)
        ensures
            r == self.role_spec(),
    {
        self.role
    }

    /// Messages sent so far (each advanced the sending key once).
    pub fn sent(&self) -> (r: u64)
        ensures
            r == self.send_generation(),
    {
        self.sent
    }

    /// Messages received so far (each advanced the receiving key once).
    pub fn received(&self) -> (r: u64)
        ensures
            r == self.receive_generation(),
    {
        self.received
    }

    /// Encrypts one message of at most `PLAINTEXT_LEN` bytes with the
    /// sending key, then rekeys the sending direction. The ciphertext is
    /// the plaintext plus a 16-byte tag. A failed message leaves both key
    /// generations as they were.
    pub fn encrypt(&mut self, plaintext: &[u8]) -> (r: Result<Vec<u8>, TransportError>)
        requires
            old(self).wf(),
        ensures
            final(self).wf(),
            final(self).role_spec() == old(self).role_spec(),
            final(self).receive_generation() == old(self).receive_generation(),
            plaintext@.len() <= PLAINTEXT_LEN && old(self).send_generation() < u64::MAX ==> r is Ok,
            r is Ok ==> r->Ok_0@ == old(self).sealed(plaintext@),
            plaintext@.len() > PLAINTEXT_LEN ==> r == Err::<Vec<u8>, TransportError>(
                TransportError::TooLong,
            ),
            plaintext@.len() <= PLAINTEXT_LEN && old(self).send_generation() == u64::MAX
                ==> r == Err::<Vec<u8>, TransportError>(TransportError::Exhausted),
            r is Ok ==> r->Ok_0@.len() == plaintext@.len() + TAG_LEN
                && final(self).send_generation() == old(self).send_generation() + 1,
            r is Err ==> final(self).send_generation() == old(self).send_generation(),
    {
        if plaintext.len() > PLAINTEXT_LEN {
            return Err(TransportError::TooLong);
        }
        if self.sent == u64::MAX {
            return Err(TransportError::Exhausted);
        }
        let mut scratch: Vec<u8> = vec![0u8; CIPHERTEXT_LEN];
        let written = ts_write_message(&mut self.state, plaintext, &mut scratch);
        let r = match written {
            Ok(n) => {
                let mut ct: Vec<u8> = Vec::with_capacity(n);
                let mut i: usize = 0;
                while i < n
                    invariant
                        n <= scratch@.len(),
                        i <= n,
                        ct@ =~= scratch@.subrange(0, i as int),
                    decreases n - i,
                {
                    ct.push(scratch[i]);
                    i = i + 1;
                }
                ts_rekey_outgoing(&mut self.state);
                self.sent = self.sent + 1;
                Ok(ct)
            },
            Err(_) => Err(TransportError::Encrypt),
        };
        wipe(&mut scratch);
        r
    }

    /// Decrypts one message with the receiving key and, when it
    /// authenticates, rekeys the receiving direction. The plaintext is the
    /// message without its 16-byte tag. A message that does not decrypt is
    /// refused and leaves both key generations as they were.
    pub fn decrypt(&mut self, ciphertext: &[u8]) -> (r: Result<Vec<u8>, TransportError>)
        requires
            old(self).wf(),
        ensures
            final(self).wf(),
            final(self).role_spec() == old(self).role_spec(),
            final(self).send_generation() == old(self).send_generation(),
            TAG_LEN <= ciphertext@.len() <= CIPHERTEXT_LEN + TAG_LEN && old(self).receive_generation()
                < u64::MAX ==> (r is Ok <==> old(self).opens(ciphertext@)),
            r is Ok ==> r->Ok_0@ == old(self).opened(ciphertext@),
            ciphertext@.len() < TAG_LEN ==> r == Err::<Vec<u8>, TransportError>(
                TransportError::Decrypt,
            ),
            ciphertext@.len() >= TAG_LEN && old(self).receive_generation() == u64::MAX
                ==> r == Err::<Vec<u8>, TransportError>(TransportError::Exhausted),
            r is Ok ==> r->Ok_0@.len() + TAG_LEN == ciphertext@.len()
                && final(self).receive_generation() == old(self).receive_generation() + 1,
            r is Err ==> final(self).receive_generation() == old(self).receive_generation(),
            r is Err ==> r == Err::<Vec<u8>, TransportError>(TransportError::Decrypt)
                || r == Err::<Vec<u8>, TransportError>(TransportError::Exhausted),
    {
        if ciphertext.len() < TAG_LEN {
            return Err(TransportError::Decrypt);
        }
        if self.received == u64::MAX {
            return Err(TransportError::Exhausted);
        }
        let mut scratch: Vec<u8> = vec![0u8; CIPHERTEXT_LEN];
        let read = ts_read_message(&mut self.state, ciphertext, &mut scratch);
        let r = match read {
            Ok(n) => {
                let mut pt: Vec<u8> = Vec::with_capacity(n);
                let mut i: usize = 0;
                while i < n
                    invariant
                        n <= scratch@.len(),
                        i <= n,
                        pt@ =~= scratch@.subrange(0, i as int),
                    decreases n - i,
                {
                    pt.push(scratch[i]);
                    i = i + 1;
                }
                ts_rekey_incoming(&mut self.state);
                self.received = self.received + 1;
                Ok(pt)
            },
            Err(_) => Err(TransportError::Decrypt),
        };
        wipe(&mut scratch);
        r
    }
}

/// What the pump is handed: from the line source or from the socket reader.
#[derive(Debug, PartialEq, Eq)]
pub enum PumpEvent {
    /// A line to send (already padded by the line source).
    Line(Vec<u8>),
    /// Bytes read from the socket: one ciphertext.
    Incoming(Vec<u8>),
    /// The peer closed the connection.
    Closed,
}

/// What the caller does with the outcome of one event.
#[derive(Debug, PartialEq, Eq)]
pub enum PumpAction {
    /// Write these bytes to the connection.
    Transmit(Vec<u8>),
    /// Show this received text (zero padding removed).
    Display(Vec<u8>),
    /// The message was refused (too long, or did not decrypt): nothing to do.
    Dropped,
    /// The session is over: the peer disconnected.
    Disconnected,
}

/// Turns one read of the socket into a pump event: a read of zero bytes
/// means the peer closed the connection; otherwise the first `n` bytes read
/// (at most `CIPHERTEXT_LEN`) are forwarded verbatim.
pub fn classify_read(buf: &[u8], n: usize) -> (r: PumpEvent)
    requires
        n <= buf@.len(),
    ensures
        n == 0 ==> r == PumpEvent::Closed,
        n > 0 ==> r is Incoming && r->Incoming_0@ == buf@.subrange(
            0,
            if n <= CIPHERTEXT_LEN { n as int } else { CIPHERTEXT_LEN as int },
        ),
{
    if n == 0 {
        return PumpEvent::Closed;
    }
    let end: usize = if n <= CIPHERTEXT_LEN { n } else { CIPHERTEXT_LEN };
    let mut r: Vec<u8> = Vec::with_capacity(end);
    let mut i: usize = 0;
    while i < end
        invariant
            end <= buf@.len(),
            i <= end,
            r@ =~= buf@.subrange(0, i as int),
        decreases end - i,
    {
        r.push(buf[i]);
        i = i + 1;
    }
    PumpEvent::Incoming(r)
}

/// The message loop's state: the session, and whether the peer is still there.
pub struct Pump {
    session: TransportSession,
    open: bool,
}

impl Pump {
    /// Whether the connection is still up.
    pub closed spec fn is_open(&self) -> bool {
        self.open
    }

    /// The state invariant: the session's own.
    pub closed spec fn wf(&self) -> bool {
        self.session.wf()
    }

    /// What the session's sending key makes of `plaintext` now.
    pub closed spec fn sealed(&self, plaintext: Seq<u8>) -> Seq<u8> {
        self.session.sealed(plaintext)
    }

    /// Whether `ciphertext` authenticates under the session's receiving key now.
    pub closed spec fn opens(&self, ciphertext: Seq<u8>) -> bool {
        self.session.opens(ciphertext)
    }

    /// What the session's receiving key recovers from `ciphertext` now.
    pub closed spec fn opened(&self, ciphertext: Seq<u8>) -> Seq<u8> {
        self.session.opened(ciphertext)
    }

    /// The session's sending key generation.
    pub closed spec fn send_generation(&self) -> nat {
        self.session.send_generation()
    }

    /// The session's receiving key generation.
    pub closed spec fn receive_generation(&self) -> nat {
        self.session.receive_generation()
    }

    /// A pump over a fresh session, with the connection up.
    pub fn new(session: TransportSession) -> (r: Pump)
        requires
            session.wf(),
        ensures
            r.wf(),
            r.is_open(),
            r.send_generation() == session.send_generation(),
            r.receive_generation() == session.receive_generation(),
    {
        Pump { session, open: true }
    }

    /// Whether the connection is still up.
    pub fn open(&self) -> (r: bool)
        ensures
            r == self.is_open(),
    {
        self.open
    }

    /// The session that the pump drives.
    pub fn session(&self) -> (r: &TransportSession)
        ensures
            self.wf() ==> r.wf(),
            r.send_generation() == self.send_generation(),
            r.receive_generation() == self.receive_generation(),
    {
        &self.session
    }

    /// Handles one event. A line is encrypted and rekeys the sending side;
    /// a ciphertext that decrypts is shown without its zero padding and
    /// rekeys the receiving side; one that does not is dropped and the
    /// session goes on. Disconnection ends the session for good.
    pub fn step(&mut self, ev: PumpEvent) -> (r: PumpAction)
        requires
            old(self).wf(),
        ensures
            final(self).wf(),
            old(self).is_open() && ev is Line && ev->Line_0@.len() <= PLAINTEXT_LEN
                && old(self).send_generation() < u64::MAX ==> r is Transmit,
            !old(self).is_open() || ev is Closed ==> r == PumpAction::Disconnected
                && !final(self).is_open()
                && final(self).send_generation() == old(self).send_generation()
                && final(self).receive_generation() == old(self).receive_generation(),
            old(self).is_open() && !(ev is Closed) ==> final(self).is_open(),
            old(self).is_open() && ev is Line ==> final(self).receive_generation()
                == old(self).receive_generation() && (
                (r is Transmit && r->Transmit_0@.len() == ev->Line_0@.len() + TAG_LEN
                    && r->Transmit_0@ == old(self).sealed(ev->Line_0@)
                    && final(self).send_generation() == old(self).send_generation() + 1)
                || (r is Dropped && final(self).send_generation() == old(self).send_generation())),
            old(self).is_open() && ev is Line && ev->Line_0@.len() > PLAINTEXT_LEN ==> r is Dropped,
            old(self).is_open() && ev is Incoming ==> final(self).send_generation()
                == old(self).send_generation() && (
                (r is Display && r->Display_0@ == strip_zeros(old(self).opened(ev->Incoming_0@))
                    && final(self).receive_generation() == old(self).receive_generation() + 1)
                || (r is Dropped && final(self).receive_generation()
                    == old(self).receive_generation())),
            old(self).is_open() && ev is Incoming && ev->Incoming_0@.len() < TAG_LEN ==> r is Dropped,
            old(self).is_open() && ev is Incoming && TAG_LEN <= ev->Incoming_0@.len()
                <= CIPHERTEXT_LEN + TAG_LEN && old(self).receive_generation() < u64::MAX ==> (
            r is Display <==> old(self).opens(ev->Incoming_0@)),
    {
        if !self.open {
            return PumpAction::Disconnected;
        }
        match ev {
            PumpEvent::Closed => {
                self.open = false;
                PumpAction::Disconnected
            },
            PumpEvent::Line(line) => {
                let mut line = line;
                let sent = self.session.encrypt(line.as_slice());
                wipe(&mut line);
                match sent {
                    Ok(ct) => PumpAction::Transmit(ct),
                    Err(_) => PumpAction::Dropped,
                }
            },
            PumpEvent::Incoming(ct) => {
                match self.session.decrypt(ct.as_slice()) {
                    Ok(pt) => {
                        let mut pt = pt;
                        let text = trim_padding(pt.as_slice());
                        wipe(&mut pt);
                        PumpAction::Display(text)
                    },
                    Err(_) => PumpAction::Dropped,
                }
            },
        }
    }
}

} // verus!
