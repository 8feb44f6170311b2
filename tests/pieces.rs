use chat::kdf::{derive_psk, PSK_LEN};
use chat::message::{accept_line, trim_padding, wipe, LineOutcome, PLAINTEXT_LEN};
use chat::negotiate::{
    NegotiationAction, NegotiationEvent, Negotiator, Role, POLLS_PER_WINDOW, POLL_INTERVAL_MS,
    RETRY_DELAY_MS,
};

#[test]
fn short_line_is_zero_padded() {
    match accept_line(b"hi") {
        LineOutcome::Forward(buf) => {
            assert_eq!(buf.len(), PLAINTEXT_LEN);
            assert_eq!(&buf[..2], b"hi");
            assert!(buf[2..].iter().all(|b| *b == 0));
        },
        other => panic!("unexpected {:?}", other),
    }
}

#[test]
fn empty_line_is_all_padding() {
    assert_eq!(accept_line(b""), LineOutcome::Forward(vec![0u8; 256]));
}

#[test]
fn line_at_the_cap_is_accepted() {
    let line = vec![b'z'; 256];
    assert_eq!(accept_line(&line), LineOutcome::Forward(line.clone()));
}

#[test]
fn line_one_over_the_cap_is_refused() {
    assert_eq!(accept_line(&vec![b'z'; 257]), LineOutcome::TooLong(257));
    assert_eq!(accept_line(&vec![b'q'; 300]), LineOutcome::TooLong(300));
}

#[test]
fn padding_is_trimmed_from_the_end_only() {
    assert_eq!(trim_padding(&[104, 105, 0, 0, 0]), vec![104, 105]);
    assert_eq!(trim_padding(&[0, 104, 0, 105, 0]), vec![0, 104, 0, 105]);
    assert_eq!(trim_padding(&[0, 0, 0]), Vec::<u8>::new());
    assert_eq!(trim_padding(&[]), Vec::<u8>::new());
    assert_eq!(trim_padding(b"full"), b"full".to_vec());
}

#[test]
fn wipe_clears_every_byte() {
    let mut buf = vec![1u8, 2, 3, 255];
    wipe(&mut buf);
    assert_eq!(buf, vec![0u8; 4]);
    let mut empty: Vec<u8> = Vec::new();
    wipe(&mut empty);
    assert!(empty.is_empty());
}

#[test]
fn psk_matches_pbkdf2_hmac_sha256() {
    let expected: Vec<u8> = vec![
        231, 187, 178, 19, 8, 111, 44, 236, 68, 1, 81, 40, 185, 41, 176, 142, 248, 103, 245, 106,
        114, 6, 146, 143, 159, 128, 103, 234, 149, 118, 110, 216,
    ];
    assert_eq!(derive_psk(b"hunter2"), expected);
    let empty: Vec<u8> = vec![
        67, 157, 29, 132, 137, 135, 176, 105, 140, 20, 169, 146, 8, 150, 80, 208, 160, 103, 226,
        201, 233, 205, 78, 41, 235, 197, 204, 72, 241, 213, 141, 81,
    ];
    assert_eq!(derive_psk(b""), empty);
}

#[test]
fn psk_is_deterministic() {
    let a = derive_psk(b"correct horse");
    let b = derive_psk(b"correct horse");
    assert_eq!(a.len(), PSK_LEN);
    assert_eq!(a, b);
}

#[test]
fn different_passwords_give_different_psks() {
    assert_ne!(derive_psk(b"correct horse"), derive_psk(b"correct horsf"));
}

#[test]
fn negotiation_starts_with_an_immediate_poll() {
    let (n, first) = Negotiator::new();
    assert_eq!(n.polls, 0);
    assert_eq!(first, NegotiationAction::Accept { after_ms: 0 });
}

#[test]
fn negotiation_dials_after_a_full_window() {
    let (mut n, _) = Negotiator::new();
    for _ in 0..POLLS_PER_WINDOW - 1 {
        assert_eq!(
            n.step(NegotiationEvent::NoInbound),
            NegotiationAction::Accept { after_ms: POLL_INTERVAL_MS }
        );
    }
    assert_eq!(n.polls, 99);
    assert_eq!(
        n.step(NegotiationEvent::NoInbound),
        NegotiationAction::Dial { after_ms: 25 }
    );
    assert_eq!(n.polls, 0);
}

#[test]
fn failed_dial_restarts_the_window() {
    let (mut n, _) = Negotiator::new();
    n.step(NegotiationEvent::NoInbound);
    assert_eq!(
        n.step(NegotiationEvent::DialFailed),
        NegotiationAction::Accept { after_ms: RETRY_DELAY_MS }
    );
    assert_eq!(n.polls, 0);
    assert_eq!(RETRY_DELAY_MS, 100);
}

#[test]
fn inbound_connection_makes_a_responder() {
    let (mut n, _) = Negotiator::new();
    n.step(NegotiationEvent::NoInbound);
    assert_eq!(n.step(NegotiationEvent::Inbound), NegotiationAction::Established(Role::Responder));
}

#[test]
fn dialed_connection_makes_an_initiator() {
    let (mut n, _) = Negotiator::new();
    assert_eq!(
        n.step(NegotiationEvent::DialSucceeded),
        NegotiationAction::Established(Role::Initiator)
    );
}

#[test]
fn listener_error_aborts() {
    let (mut n, _) = Negotiator::new();
    assert_eq!(n.step(NegotiationEvent::AcceptFailed), NegotiationAction::Abort);
}

#[test]
fn the_two_ends_get_opposite_roles() {
    // One peer's dial lands on the other's listener, after a few empty polls.
    for early in 0..5 {
        let (mut dialer, _) = Negotiator::new();
        let (mut listener, _) = Negotiator::new();
        for _ in 0..early {
            listener.step(NegotiationEvent::NoInbound);
        }
        for _ in 0..POLLS_PER_WINDOW {
            dialer.step(NegotiationEvent::NoInbound);
        }
        let a = dialer.step(NegotiationEvent::DialSucceeded);
        let b = listener.step(NegotiationEvent::Inbound);
        assert_eq!(a, NegotiationAction::Established(Role::Initiator));
        assert_eq!(b, NegotiationAction::Established(Role::Responder));
        assert_ne!(a, b);
    }
}

#[test]
fn trimming_undoes_padding() {
    let long = vec![b'k'; 256];
    for line in [&b"hello there"[..], &b"x"[..], &long[..], &b""[..]] {
        match accept_line(line) {
            LineOutcome::Forward(buf) => assert_eq!(trim_padding(&buf), line.to_vec()),
            other => panic!("unexpected {:?}", other),
        }
    }
}
