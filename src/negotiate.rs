//! Symmetric rendezvous: both peers run the same negotiator, alternating a
//! window of inbound polls with one outbound dial, until one succeeds. An
//! accepted connection makes this side the responder, a dial that lands
//! makes it the initiator.
//!
//! The caller performs each action (a non-blocking accept, a dial through
//! the proxy, after the requested delay) and reports what happened.
use vstd::prelude::*;

verus! {

/// Number of inbound polls in one window before an outbound dial.
pub const POLLS_PER_WINDOW: u32 = 100;

/// Pause before each inbound poll after the first of a window, in milliseconds.
pub const POLL_INTERVAL_MS: u64 = 25;

/// Pause after a failed dial before the next window starts, in milliseconds.
pub const RETRY_DELAY_MS: u64 = 100;

/// Which side of the handshake this endpoint plays.
#[derive(Debug, Clone, Copy, PartialEq, Eq, Structural)]
pub enum Role {
    Initiator,
    Responder,
}

/// What the last action of the negotiator produced.
#[derive(Debug, Clone, Copy, PartialEq, Eq, Structural)]
pub enum NegotiationEvent {
    /// A poll of the listener found no pending connection.
    NoInbound,
    /// A poll of the listener accepted a connection.
    Inbound,
    /// The listener failed with an error other than "would block".
    AcceptFailed,
    /// The outbound dial through the proxy connected.
    DialSucceeded,
    /// The outbound dial through the proxy failed.
    DialFailed,
}

/// What the caller does next.
#[derive(Debug, Clone, Copy, PartialEq, Eq, Structural)]
pub enum NegotiationAction {
    /// Wait `after_ms` milliseconds, then poll the listener once.
    Accept { after_ms: u64 },
    /// Wait `after_ms` milliseconds, then dial the peer through the proxy.
    Dial { after_ms: u64 },
    /// The connection that the last event produced is the one to use, and
    /// this endpoint plays the given role on it.
    Established(Role),
    /// The listener is broken: negotiation cannot go on.
    Abort,
}

/// Progress through the current polling window.
#[derive(Debug, Clone, Copy, PartialEq, Eq, Structural)]
pub struct Negotiator {
    /// Polls of the current window that found nothing.
    pub polls: u32,
}

/// The role that an established connection gives, by how it was made.
pub open spec fn role_for(ev: NegotiationEvent) -> Option<Role> {
    match ev {
        NegotiationEvent::Inbound => Some(Role::Responder),
        NegotiationEvent::DialSucceeded => Some(Role::Initiator),
        _ => None,
    }
}

/// One transition: the state after `ev` and the action it asks for.
pub open spec fn next(n: Negotiator, ev: NegotiationEvent) -> (Negotiator, NegotiationAction) {
    match ev {
        NegotiationEvent::Inbound => (
            Negotiator { polls: 0 },
            NegotiationAction::Established(Role::Responder),
        ),
        NegotiationEvent::DialSucceeded => (
            Negotiator { polls: 0 },
            NegotiationAction::Established(Role::Initiator),
        ),
        NegotiationEvent::AcceptFailed => (n, NegotiationAction::Abort),
        NegotiationEvent::NoInbound => if n.polls + 1 < POLLS_PER_WINDOW {
            (
                Negotiator { polls: (n.polls + 1) as u32 },
                NegotiationAction::Accept { after_ms: POLL_INTERVAL_MS },
            )
        } else {
            (Negotiator { polls: 0 }, NegotiationAction::Dial { after_ms: POLL_INTERVAL_MS })
        },
        NegotiationEvent::DialFailed => (
            Negotiator { polls: 0 },
            NegotiationAction::Accept { after_ms: RETRY_DELAY_MS },
        ),
    }
}

impl Negotiator {
    /// The state invariant: the window is never already used up.
    pub open spec fn wf(&self) -> bool {
        self.polls < POLLS_PER_WINDOW
    }

    /// A negotiator at the start of its first window, with the action to
    /// take first: an immediate poll of the listener.
    pub fn new() -> (r: (Negotiator, NegotiationAction))
        ensures
            r.0.wf(),
            r.0.polls == 0,
            r.1 == (NegotiationAction::Accept { after_ms: 0 }),
    {
        (Negotiator { polls: 0 }, NegotiationAction::Accept { after_ms: 0 })
    }

    /// Advances the negotiation by the outcome of the last action.
    pub fn step(&mut self, ev: NegotiationEvent) -> (r: NegotiationAction)
        requires
            old(self).wf(),
        ensures
            final(self).wf(),
            (*final(self), r) == next(*old(self), ev),
    {
        match ev {
            NegotiationEvent::Inbound => {
                self.polls = 0;
                NegotiationAction::Established(Role::Responder)
            },
            NegotiationEvent::DialSucceeded => {
                self.polls = 0;
                NegotiationAction::Established(Role::Initiator)
            },
            NegotiationEvent::AcceptFailed => NegotiationAction::Abort,
            NegotiationEvent::NoInbound => {
                if self.polls + 1 < POLLS_PER_WINDOW {
                    self.polls = self.polls + 1;
                    NegotiationAction::Accept { after_ms: POLL_INTERVAL_MS }
                } else {
                    self.polls = 0;
                    NegotiationAction::Dial { after_ms: POLL_INTERVAL_MS }
                }
            },
            NegotiationEvent::DialFailed => {
                self.polls = 0;
                NegotiationAction::Accept { after_ms: RETRY_DELAY_MS }
            },
        }
    }
}

/// A negotiation ends in `Established` exactly on the events that make a
/// connection, with the role that the way it was made gives.
pub proof fn lemma_established_role(n: Negotiator, ev: NegotiationEvent)
    ensures
        next(n, ev).1 is Established <==> role_for(ev) is Some,
        next(n, ev).1 is Established ==> role_for(ev) == Some(next(n, ev).1->Established_0),
{
}

/// The two ends of one connection never get the same role: one end accepted
/// it and the other dialed it, whatever state either negotiator was in.
pub proof fn lemma_ends_get_distinct_roles(a: Negotiator, b: Negotiator)
    ensures
        next(a, NegotiationEvent::Inbound).1 is Established,
        next(b, NegotiationEvent::DialSucceeded).1 is Established,
        next(a, NegotiationEvent::Inbound).1->Established_0 != next(
            b,
            NegotiationEvent::DialSucceeded,
        ).1->Established_0,
{
}

/// Polls and dial alternate: after a window of `POLLS_PER_WINDOW` empty polls
/// that started afresh, the negotiator dials, and not before.
pub proof fn lemma_dial_after_full_window(n: Negotiator)
    requires
        n.wf(),
    ensures
        next(n, NegotiationEvent::NoInbound).1 is Dial <==> n.polls + 1 == POLLS_PER_WINDOW,
        next(n, NegotiationEvent::NoInbound).0.wf(),
{
}

} // verus!
