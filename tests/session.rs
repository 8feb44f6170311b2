use chat::handshake::{pattern_name, Handshake, HandshakeError, HandshakePhase, NOISE_PATTERN, NOISE_PATTERN_PSK};
use chat::kdf::derive_psk;
use chat::message::{accept_line, LineOutcome};
use chat::negotiate::Role;
use chat::transport::{classify_read, Pump, PumpAction, PumpEvent, TransportError, TransportSession};

fn connect_pair(
    initiator_password: Option<&[u8]>,
    responder_password: Option<&[u8]>,
) -> Result<(TransportSession, TransportSession), HandshakeError> {
    let mut initiator = Handshake::new(Role::Initiator, initiator_password)?;
    let mut responder = Handshake::new(Role::Responder, responder_password)?;
    let first = initiator.start()?.expect("initiator writes the first message");
    assert_eq!(responder.start()?, None);
    let reply = responder.receive(&first)?.expect("responder writes the reply");
    assert_eq!(initiator.receive(&reply)?, None);
    Ok((initiator.finish()?, responder.finish()?))
}

fn padded(text: &[u8]) -> Vec<u8> {
    match accept_line(text) {
        LineOutcome::Forward(buf) => buf,
        LineOutcome::TooLong(n) => panic!("line of {} bytes refused", n),
    }
}

fn send(pump: &mut Pump, text: &[u8]) -> Vec<u8> {
    match pump.step(PumpEvent::Line(padded(text))) {
        PumpAction::Transmit(ct) => ct,
        other => panic!("expected a ciphertext, got {:?}", other),
    }
}

#[test]
fn pattern_names_follow_password_use() {
    assert_eq!(pattern_name(true), NOISE_PATTERN_PSK);
    assert_eq!(pattern_name(false), NOISE_PATTERN);
    assert_eq!(pattern_name(false), "Noise_NN_25519_ChaChaPoly_BLAKE2s");
}

#[test]
fn handshake_without_password_completes() {
    let (a, b) = connect_pair(None, None).unwrap();
    assert_eq!(a.sent(), 0);
    assert_eq!(a.received(), 0);
    assert_eq!(b.sent(), 0);
    assert_eq!(b.received(), 0);
}

#[test]
fn handshake_with_same_password_completes() {
    assert!(connect_pair(Some(b"hunter2"), Some(b"hunter2")).is_ok());
}

#[test]
fn handshake_phases_follow_role() {
    let mut initiator = Handshake::new(Role::Initiator, None).unwrap();
    let mut responder = Handshake::new(Role::Responder, None).unwrap();
    assert_eq!(initiator.role(), Role::Initiator);
    assert_eq!(initiator.phase(), HandshakePhase::Idle);
    let first = initiator.start().unwrap().unwrap();
    assert_eq!(initiator.phase(), HandshakePhase::AwaitingReply);
    assert_eq!(responder.start().unwrap(), None);
    assert_eq!(responder.phase(), HandshakePhase::AwaitingFirst);
    let reply = responder.receive(&first).unwrap().unwrap();
    assert_eq!(responder.phase(), HandshakePhase::Complete);
    assert_eq!(initiator.receive(&reply).unwrap(), None);
    assert_eq!(initiator.phase(), HandshakePhase::Complete);
}

#[test]
fn handshake_with_different_passwords_fails() {
    assert_eq!(
        connect_pair(Some(b"hunter2"), Some(b"hunter3")).err(),
        Some(HandshakeError::Protocol)
    );
}

#[test]
fn handshake_with_password_on_initiator_only_fails() {
    assert_eq!(connect_pair(Some(b"hunter2"), None).err(), Some(HandshakeError::Protocol));
}

#[test]
fn handshake_with_password_on_responder_only_fails() {
    assert_eq!(connect_pair(None, Some(b"hunter2")).err(), Some(HandshakeError::Protocol));
}

#[test]
fn handshake_failure_marks_phase_failed() {
    let mut initiator = Handshake::new(Role::Initiator, Some(b"one")).unwrap();
    let mut responder = Handshake::new(Role::Responder, Some(b"two")).unwrap();
    let first = initiator.start().unwrap().unwrap();
    responder.start().unwrap();
    assert_eq!(responder.receive(&first), Err(HandshakeError::Protocol));
    assert_eq!(responder.phase(), HandshakePhase::Failed);
}

#[test]
fn psk_of_wrong_length_is_refused() {
    let short = [7u8; 31];
    assert!(matches!(
        Handshake::with_psk(Role::Initiator, Some(&short[..])),
        Err(HandshakeError::Setup)
    ));
    let right = derive_psk(b"pw");
    assert!(Handshake::with_psk(Role::Responder, Some(&right[..])).is_ok());
}

#[test]
fn round_trip_restores_text() {
    let (a, b) = connect_pair(None, None).unwrap();
    let mut alice = Pump::new(a);
    let mut bob = Pump::new(b);
    let long = vec![b'x'; 256];
    for text in [&b"hello"[..], &b"a"[..], &long[..], &b"tab\tand spaces "[..]] {
        let ct = send(&mut alice, text);
        assert_eq!(ct.len(), 256 + 16);
        assert_eq!(bob.step(PumpEvent::Incoming(ct)), PumpAction::Display(text.to_vec()));
    }
    let back = send(&mut bob, b"reply");
    assert_eq!(alice.step(PumpEvent::Incoming(back)), PumpAction::Display(b"reply".to_vec()));
}

#[test]
fn round_trip_with_password() {
    let (a, b) = connect_pair(Some(b"s3cret"), Some(b"s3cret")).unwrap();
    let mut alice = Pump::new(a);
    let mut bob = Pump::new(b);
    let ct = send(&mut bob, b"over the psk link");
    assert_eq!(alice.step(PumpEvent::Incoming(ct)), PumpAction::Display(b"over the psk link".to_vec()));
}

#[test]
fn every_message_advances_the_key_generation() {
    let (a, b) = connect_pair(None, None).unwrap();
    let mut alice = Pump::new(a);
    let mut bob = Pump::new(b);
    for k in 0..5u64 {
        assert_eq!(alice.session().sent(), k);
        assert_eq!(bob.session().received(), k);
        let ct = send(&mut alice, b"tick");
        assert_eq!(bob.step(PumpEvent::Incoming(ct)), PumpAction::Display(b"tick".to_vec()));
    }
    assert_eq!(alice.session().sent(), 5);
    assert_eq!(alice.session().received(), 0);
    assert_eq!(bob.session().received(), 5);
    assert_eq!(bob.session().sent(), 0);
}

#[test]
fn rekey_isolation_ahead_generation_fails() {
    // The ciphertext of generation 1 does not open at generation 0.
    let (mut a, mut b) = connect_pair(None, None).unwrap();
    let first = a.encrypt(&padded(b"zero")).unwrap();
    let second = a.encrypt(&padded(b"one")).unwrap();
    assert_eq!(b.decrypt(&second), Err(TransportError::Decrypt));
    assert_eq!(b.received(), 0);
    // The matching generation still opens.
    assert_eq!(b.decrypt(&first).unwrap(), padded(b"zero"));
    assert_eq!(b.decrypt(&second).unwrap(), padded(b"one"));
}

#[test]
fn rekey_isolation_behind_generation_fails() {
    // The ciphertext of generation 1 does not open at generation 2.
    let (mut a, mut b) = connect_pair(None, None).unwrap();
    let first = a.encrypt(&padded(b"zero")).unwrap();
    let second = a.encrypt(&padded(b"one")).unwrap();
    assert!(b.decrypt(&first).is_ok());
    assert!(b.decrypt(&second).is_ok());
    assert_eq!(b.decrypt(&second), Err(TransportError::Decrypt));
    assert_eq!(b.received(), 2);
}

#[test]
fn forged_message_is_dropped_and_session_continues() {
    let (a, b) = connect_pair(None, None).unwrap();
    let mut alice = Pump::new(a);
    let mut bob = Pump::new(b);
    let mut ct = send(&mut alice, b"genuine");
    ct[3] ^= 0x40;
    assert_eq!(bob.step(PumpEvent::Incoming(ct)), PumpAction::Dropped);
    assert!(bob.open());
    assert_eq!(bob.session().received(), 0);
    assert_eq!(bob.step(PumpEvent::Incoming(vec![1, 2, 3])), PumpAction::Dropped);
    assert!(bob.open());
}

#[test]
fn oversized_line_is_not_transmitted() {
    let line = vec![b'm'; 300];
    assert_eq!(accept_line(&line), LineOutcome::TooLong(300));
    let (a, _b) = connect_pair(None, None).unwrap();
    let mut alice = Pump::new(a);
    assert_eq!(alice.step(PumpEvent::Line(line)), PumpAction::Dropped);
    assert_eq!(alice.session().sent(), 0);
}

#[test]
fn encrypt_refuses_long_plaintext() {
    let (mut a, _b) = connect_pair(None, None).unwrap();
    assert_eq!(a.encrypt(&[1u8; 257]), Err(TransportError::TooLong));
    assert_eq!(a.sent(), 0);
    assert_eq!(a.encrypt(&[1u8; 256]).unwrap().len(), 272);
    assert_eq!(a.sent(), 1);
}

#[test]
fn decrypt_refuses_short_ciphertext() {
    let (_a, mut b) = connect_pair(None, None).unwrap();
    assert_eq!(b.decrypt(&[0u8; 15]), Err(TransportError::Decrypt));
    assert_eq!(b.decrypt(&[]), Err(TransportError::Decrypt));
}

#[test]
fn peer_disconnect_ends_session() {
    let (a, b) = connect_pair(None, None).unwrap();
    let mut alice = Pump::new(a);
    let mut bob = Pump::new(b);
    let buf = [0u8; 512];
    let ev = classify_read(&buf, 0);
    assert_eq!(ev, PumpEvent::Closed);
    assert_eq!(bob.step(ev), PumpAction::Disconnected);
    assert!(!bob.open());
    let ct = send(&mut alice, b"too late");
    assert_eq!(bob.step(PumpEvent::Incoming(ct)), PumpAction::Disconnected);
    assert_eq!(bob.step(PumpEvent::Line(padded(b"x"))), PumpAction::Disconnected);
    assert_eq!(bob.session().received(), 0);
    assert_eq!(bob.session().sent(), 0);
}

#[test]
fn socket_read_is_forwarded_verbatim() {
    let mut buf = [0u8; 512];
    buf[0] = 9;
    buf[1] = 8;
    buf[2] = 7;
    assert_eq!(classify_read(&buf, 3), PumpEvent::Incoming(vec![9, 8, 7]));
    match classify_read(&buf, 512) {
        PumpEvent::Incoming(v) => assert_eq!(v.len(), 512),
        other => panic!("expected bytes, got {:?}", other),
    }
    let big = [5u8; 600];
    assert_eq!(classify_read(&big, 600), PumpEvent::Incoming(vec![5u8; 512]));
}

#[test]
fn session_keeps_handshake_role() {
    let (a, b) = connect_pair(Some(b"pw"), Some(b"pw")).unwrap();
    assert_eq!(a.role(), Role::Initiator);
    assert_eq!(b.role(), Role::Responder);
}
