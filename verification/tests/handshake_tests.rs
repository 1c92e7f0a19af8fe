use secure_channel::handshake::{Handshake, HandshakeError, HandshakeStatus, Role};
use secure_channel::messages::{Credential, Identifier};

fn alice() -> Handshake {
    Handshake::new_initiator(
        Identifier { value: 1001 },
        0x5151,
        0xaaaa,
        vec![Credential { value: 501 }],
        vec![],
    )
}

fn bob() -> Handshake {
    Handshake::new_responder(
        Identifier { value: 2002 },
        0x6262,
        0xbbbb,
        vec![Credential { value: 502 }],
        vec![],
    )
}

#[test]
fn three_message_handshake_completes() {
    let mut a = alice();
    let mut b = bob();
    let m1 = a.initiate().unwrap();
    let m2 = b.respond(&m1).unwrap();
    let m3 = a.process_message2(&m2).unwrap();
    b.process_message3(&m3).unwrap();
    assert_eq!(a.status, HandshakeStatus::Completed);
    assert_eq!(b.status, HandshakeStatus::Completed);

    let a_keys = a.finalize(u64::MAX).unwrap();
    let b_keys = b.finalize(u64::MAX).unwrap();
    assert_eq!(a_keys.their_identifier, Identifier { value: 2002 });
    assert_eq!(b_keys.their_identifier, Identifier { value: 1001 });
    assert_eq!(a_keys.their_credentials, vec![Credential { value: 502 }]);
    assert_eq!(b_keys.their_credentials, vec![Credential { value: 501 }]);

    // The two directional keys agree across the two ends.
    assert_eq!(a_keys.encryptor.key, b_keys.decryptor.key);
    assert_eq!(a_keys.decryptor.key, b_keys.encryptor.key);
    assert_ne!(a_keys.encryptor.key, a_keys.decryptor.key);

    // And they really carry traffic in both directions.
    let mut enc = a_keys.encryptor;
    let mut dec = b_keys.decryptor;
    let mut buffer = vec![0u8; 8];
    buffer.extend_from_slice(b"across");
    buffer.extend_from_slice(&[0u8; 8]);
    assert!(enc.encrypt(&mut buffer).is_ok());
    assert_eq!(dec.decrypt(&buffer).unwrap(), b"across".to_vec());
}

#[test]
fn allow_list_rejects_verified_peer() {
    // The initiator only accepts identifier 9999; the responder's proof
    // verifies cryptographically but its identifier is not listed.
    let mut a = Handshake::new_initiator(
        Identifier { value: 1001 },
        0x5151,
        0xaaaa,
        vec![],
        vec![Identifier { value: 9999 }],
    );
    let mut b = bob();
    let m1 = a.initiate().unwrap();
    let m2 = b.respond(&m1).unwrap();
    assert!(matches!(a.process_message2(&m2), Err(HandshakeError::UnauthorizedIdentifier)));
    assert_eq!(a.status, HandshakeStatus::Aborted);
    assert!(a.finalize(u64::MAX).is_err());
}

#[test]
fn allow_list_admits_listed_peer() {
    let mut a = Handshake::new_initiator(
        Identifier { value: 1001 },
        0x5151,
        0xaaaa,
        vec![],
        vec![Identifier { value: 7 }, Identifier { value: 2002 }],
    );
    let mut b = bob();
    let m1 = a.initiate().unwrap();
    let m2 = b.respond(&m1).unwrap();
    assert!(a.process_message2(&m2).is_ok());
    assert_eq!(a.status, HandshakeStatus::Completed);
}

#[test]
fn responder_allow_list_rejects_initiator() {
    let mut a = alice();
    let mut b = Handshake::new_responder(
        Identifier { value: 2002 },
        0x6262,
        0xbbbb,
        vec![],
        vec![Identifier { value: 4242 }],
    );
    let m1 = a.initiate().unwrap();
    let m2 = b.respond(&m1).unwrap();
    let m3 = a.process_message2(&m2).unwrap();
    assert!(matches!(b.process_message3(&m3), Err(HandshakeError::UnauthorizedIdentifier)));
    assert_eq!(b.status, HandshakeStatus::Aborted);
}

#[test]
fn tampered_signature_is_rejected() {
    let mut a = alice();
    let mut b = bob();
    let m1 = a.initiate().unwrap();
    let mut m2 = b.respond(&m1).unwrap();
    m2.signature ^= 1;
    assert!(matches!(a.process_message2(&m2), Err(HandshakeError::InvalidSignature)));
    assert_eq!(a.status, HandshakeStatus::Aborted);
}

#[test]
fn foreign_change_history_is_rejected() {
    let mut a = alice();
    let mut b = bob();
    let m1 = a.initiate().unwrap();
    let mut m2 = b.respond(&m1).unwrap();
    // The history now claims to belong to someone else.
    m2.change_history.subject = Identifier { value: 3003 };
    assert!(matches!(a.process_message2(&m2), Err(HandshakeError::IdentityMismatch)));
}

#[test]
fn wrong_state_calls_fail() {
    let mut b = bob();
    assert!(matches!(b.initiate(), Err(HandshakeError::InvalidState)));
    assert_eq!(b.status, HandshakeStatus::Aborted);

    let mut a = alice();
    assert!(a.finalize(u64::MAX).is_err());
    let m1 = a.initiate().unwrap();
    let mut a2 = alice();
    // A responder step on an initiator is refused.
    assert!(matches!(a2.respond(&m1), Err(HandshakeError::InvalidState)));
}
