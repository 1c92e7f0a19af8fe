use secure_channel::cipher::{Decryptor, Encryptor};
use secure_channel::decryptor_worker::{DecryptorAction, DecryptorWorker};
use secure_channel::encryptor_worker::{
    EncryptionResponse, EncryptorAction, EncryptorWorker,
};
use secure_channel::handshake::{Handshake, Role};
use secure_channel::messages::{
    Address, Addresses, ChangeHistory, ChannelError, Credential, Identifier, LocalMessage, Route,
};
use secure_channel::state::SecureChannelSharedState;

const ID_A: Identifier = Identifier { value: 1001 };
const ID_B: Identifier = Identifier { value: 2002 };

struct End {
    encryptor: EncryptorWorker,
    decryptor: DecryptorWorker,
    state: SecureChannelSharedState,
    addresses: Addresses,
}

fn addresses(base: u64) -> Addresses {
    Addresses {
        encryptor: Address { value: base },
        encryptor_api: Address { value: base + 1 },
        encryptor_internal: Address { value: base + 2 },
        decryptor: Address { value: base + 3 },
        decryptor_internal: Address { value: base + 4 },
    }
}

fn route(hops: &[u64]) -> Route {
    let mut v = Vec::new();
    for h in hops {
        v.push(Address { value: *h });
    }
    Route::from_hops(v)
}

/// Run the three-message handshake and wire up both channel ends, each
/// end's remote route pointing at the peer's decryptor address.
fn establish(retriever_on_a: bool) -> (End, End) {
    let mut a = Handshake::new_initiator(ID_A, 0x5151, 0xaaaa, vec![], vec![]);
    let mut b = Handshake::new_responder(ID_B, 0x6262, 0xbbbb, vec![], vec![]);
    let m1 = a.initiate().unwrap();
    let m2 = b.respond(&m1).unwrap();
    let m3 = a.process_message2(&m2).unwrap();
    b.process_message3(&m3).unwrap();
    let a_keys = a.finalize(u64::MAX).unwrap();
    let b_keys = b.finalize(u64::MAX).unwrap();

    let addrs_a = addresses(10);
    let addrs_b = addresses(20);

    let mut state_a = SecureChannelSharedState::create();
    state_a.update_remote_route(route(&[addrs_b.decryptor.value]));
    let mut state_b = SecureChannelSharedState::create();
    state_b.update_remote_route(route(&[addrs_a.decryptor.value]));

    let end_a = End {
        encryptor: EncryptorWorker::new(
            Role::Initiator,
            false,
            addrs_a,
            a_keys.encryptor,
            ID_A,
            retriever_on_a,
            None,
        ),
        decryptor: DecryptorWorker::new(addrs_a, a_keys.decryptor, a_keys.their_identifier),
        state: state_a,
        addresses: addrs_a,
    };
    let end_b = End {
        encryptor: EncryptorWorker::new(
            Role::Responder,
            false,
            addrs_b,
            b_keys.encryptor,
            ID_B,
            false,
            None,
        ),
        decryptor: DecryptorWorker::new(addrs_b, b_keys.decryptor, b_keys.their_identifier),
        state: state_b,
        addresses: addrs_b,
    };
    (end_a, end_b)
}

#[test]
fn hello_reaches_final_destination_and_close_is_not_echoed() {
    let (mut a, mut b) = establish(false);

    // A relays plaintext b"hello" toward final destination 100, with the
    // originator 200 on the return route.
    let msg = LocalMessage {
        onward_route: route(&[a.addresses.encryptor.value, 100]),
        return_route: route(&[200]),
        payload: b"hello".to_vec(),
    };
    let action = a
        .encryptor
        .handle_message(&mut a.state, a.addresses.encryptor, msg)
        .unwrap();
    let ciphertext_msg = match action {
        EncryptorAction::Forwarded(m) => m,
        _ => panic!("a relayed plaintext must be forwarded"),
    };
    assert_eq!(
        ciphertext_msg.onward_route.hops,
        vec![b.addresses.decryptor],
        "ciphertext is addressed to the peer's decryptor"
    );
    assert_ne!(ciphertext_msg.payload, b"hello".to_vec());

    // B's decryptor emits the identical bytes toward the destination.
    let action = b
        .decryptor
        .handle_message(&mut b.state, b.addresses.decryptor, &ciphertext_msg)
        .unwrap();
    match action {
        DecryptorAction::Forwarded(out) => {
            assert_eq!(out.payload, b"hello".to_vec());
            assert_eq!(out.onward_route.hops, vec![Address { value: 100 }]);
            assert_eq!(out.return_route.hops, vec![Address { value: 200 }]);
        }
        _ => panic!("a payload envelope must be forwarded"),
    }

    // A closes: its shutdown emits a close notification...
    let a_shutdown = a.encryptor.shutdown(&mut a.state);
    assert_eq!(a_shutdown.stop_decryptor_internal, a.addresses.decryptor_internal);
    let close_msg = a_shutdown.close_message.expect("the originating side sends the close");

    // ...which stops B's decryptor and raises the close flag.
    let action = b
        .decryptor
        .handle_message(&mut b.state, b.addresses.decryptor, &close_msg)
        .unwrap();
    assert!(matches!(action, DecryptorAction::Closed));
    assert!(b.state.should_send_close);
    let follow_up = LocalMessage {
        onward_route: route(&[]),
        return_route: route(&[]),
        payload: vec![],
    };
    assert!(matches!(
        b.decryptor.handle_message(&mut b.state, b.addresses.decryptor, &follow_up),
        Err(ChannelError::WorkerStopped)
    ));

    // B's own shutdown does not echo a close back to A.
    let b_shutdown = b.encryptor.shutdown(&mut b.state);
    assert!(b_shutdown.close_message.is_none(), "no close echo loop");
}

#[test]
fn encrypt_api_round_trips() {
    let (mut a, mut b) = establish(false);
    let request = LocalMessage {
        onward_route: route(&[a.addresses.encryptor_api.value]),
        return_route: route(&[300]),
        payload: b"api bytes".to_vec(),
    };
    let action = a
        .encryptor
        .handle_message(&mut a.state, a.addresses.encryptor_api, request)
        .unwrap();
    let reply = match action {
        EncryptorAction::Replied(reply) => reply,
        _ => panic!("an api request must be replied to"),
    };
    assert_eq!(reply.to.hops, vec![Address { value: 300 }]);
    assert_eq!(reply.from, a.addresses.encryptor_api);
    let ciphertext = match reply.response {
        EncryptionResponse::Encrypted(ct) => ct,
        EncryptionResponse::Failed(e) => panic!("api encryption failed: {:?}", e),
    };
    // The api path frames raw bytes; the peer's cipher state recovers them.
    assert_eq!(b.decryptor.decryptor.decrypt(&ciphertext).unwrap(), b"api bytes".to_vec());
}

#[test]
fn refresh_is_sent_once_and_validated_by_peer() {
    let (mut a, mut b) = establish(true);
    let credential = Credential { value: 77 };
    let history = ChangeHistory { subject: ID_A, public_key: 4, generation: 1 };

    // First trigger: an envelope goes out.
    let out = a
        .encryptor
        .handle_refresh_credentials(&mut a.state, credential, Some(history))
        .unwrap()
        .expect("a new credential is presented");
    let action = b
        .decryptor
        .handle_message(&mut b.state, b.addresses.decryptor, &out)
        .unwrap();
    match action {
        DecryptorAction::CredentialsRefreshed { change_history, credentials } => {
            assert_eq!(change_history, history);
            assert_eq!(credentials, vec![credential]);
        }
        _ => panic!("a refresh envelope must hand the credentials upward"),
    }

    // Second trigger with the unchanged credential: nothing is sent.
    let again = a
        .encryptor
        .handle_refresh_credentials(&mut a.state, credential, Some(history))
        .unwrap();
    assert!(again.is_none(), "an unchanged credential causes no refresh traffic");

    // A changed credential is presented again.
    let newer = Credential { value: 78 };
    let out = a
        .encryptor
        .handle_refresh_credentials(&mut a.state, newer, Some(history))
        .unwrap();
    assert!(out.is_some());
}

#[test]
fn refresh_requires_retriever_and_history() {
    let (mut a, _) = establish(false);
    let credential = Credential { value: 5 };
    let history = ChangeHistory { subject: ID_A, public_key: 4, generation: 1 };
    assert!(matches!(
        a.encryptor.handle_refresh_credentials(&mut a.state, credential, Some(history)),
        Err(ChannelError::NoCredentialRetriever)
    ));

    let (mut a, _) = establish(true);
    assert!(matches!(
        a.encryptor.handle_refresh_credentials(&mut a.state, credential, None),
        Err(ChannelError::NoChangeHistory)
    ));
}

#[test]
fn refresh_under_foreign_identity_stops_decryptor() {
    let (mut a, mut b) = establish(true);
    // The history claims an identity other than the channel's peer.
    let foreign = ChangeHistory { subject: Identifier { value: 31337 }, public_key: 4, generation: 1 };
    let out = a
        .encryptor
        .handle_refresh_credentials(&mut a.state, Credential { value: 9 }, Some(foreign))
        .unwrap()
        .unwrap();
    assert!(matches!(
        b.decryptor.handle_message(&mut b.state, b.addresses.decryptor, &out),
        Err(ChannelError::PeerIdentityMismatch)
    ));
    assert!(b.decryptor.stopped);
}

#[test]
fn forged_ciphertext_stops_decryptor() {
    let (mut a, mut b) = establish(false);
    let msg = LocalMessage {
        onward_route: route(&[a.addresses.encryptor.value]),
        return_route: route(&[]),
        payload: b"x".to_vec(),
    };
    let action = a
        .encryptor
        .handle_message(&mut a.state, a.addresses.encryptor, msg)
        .unwrap();
    let mut ciphertext_msg = match action {
        EncryptorAction::Forwarded(m) => m,
        _ => panic!("expected a forward"),
    };
    let last = ciphertext_msg.payload.len() - 1;
    ciphertext_msg.payload[last] ^= 1;
    assert!(matches!(
        b.decryptor.handle_message(&mut b.state, b.addresses.decryptor, &ciphertext_msg),
        Err(ChannelError::Cipher(_))
    ));
    assert!(b.decryptor.stopped, "a forged buffer is fatal");
}

#[test]
fn incoming_return_route_refreshes_remote_route() {
    let (mut a, mut b) = establish(false);
    let msg = LocalMessage {
        onward_route: route(&[a.addresses.encryptor.value, 100]),
        return_route: route(&[]),
        payload: b"ping".to_vec(),
    };
    let action = a
        .encryptor
        .handle_message(&mut a.state, a.addresses.encryptor, msg)
        .unwrap();
    let mut ciphertext_msg = match action {
        EncryptorAction::Forwarded(m) => m,
        _ => panic!("expected a forward"),
    };
    // The substrate recorded the way back to A's decryptor while routing.
    ciphertext_msg.return_route = route(&[55, a.addresses.decryptor.value]);
    b.decryptor
        .handle_message(&mut b.state, b.addresses.decryptor, &ciphertext_msg)
        .unwrap();
    assert_eq!(
        b.state.remote_route.route.hops,
        vec![Address { value: 55 }, a.addresses.decryptor]
    );
    assert_eq!(b.state.remote_route.last_nonce, 0, "first message carries nonce zero");
}

#[test]
fn unknown_destination_is_fatal_to_the_message() {
    let (mut a, _) = establish(false);
    let msg = LocalMessage {
        onward_route: route(&[]),
        return_route: route(&[]),
        payload: vec![],
    };
    assert!(matches!(
        a.encryptor.handle_message(&mut a.state, Address { value: 999 }, msg),
        Err(ChannelError::UnknownChannelMsgDestination)
    ));
}

#[test]
fn key_exchange_only_serves_only_the_api() {
    let (a, _) = establish(false);
    let mut worker = EncryptorWorker::new(
        Role::Initiator,
        true,
        a.addresses,
        a.encryptor.encryptor,
        ID_A,
        false,
        None,
    );
    let mut state = SecureChannelSharedState::create();
    let relay = LocalMessage {
        onward_route: route(&[a.addresses.encryptor.value]),
        return_route: route(&[]),
        payload: b"nope".to_vec(),
    };
    assert!(matches!(
        worker.handle_message(&mut state, a.addresses.encryptor, relay),
        Err(ChannelError::UnknownChannelMsgDestination)
    ));
    let request = LocalMessage {
        onward_route: route(&[a.addresses.encryptor_api.value]),
        return_route: route(&[1]),
        payload: b"ok".to_vec(),
    };
    assert!(matches!(
        worker.handle_message(&mut state, a.addresses.encryptor_api, request),
        Ok(EncryptorAction::Replied(_))
    ));
}

#[test]
fn refresh_trigger_address_requests_retrieval() {
    let (mut a, _) = establish(true);
    let trigger = LocalMessage {
        onward_route: route(&[a.addresses.encryptor_internal.value]),
        return_route: route(&[]),
        payload: vec![],
    };
    assert!(matches!(
        a.encryptor.handle_message(&mut a.state, a.addresses.encryptor_internal, trigger),
        Ok(EncryptorAction::RefreshRequested)
    ));
}

#[test]
fn exhausted_channel_fails_stop() {
    // A tiny nonce space: two messages fit, the third poisons the end.
    let mut a = Handshake::new_initiator(ID_A, 1, 2, vec![], vec![]);
    let mut b = Handshake::new_responder(ID_B, 3, 4, vec![], vec![]);
    let m1 = a.initiate().unwrap();
    let m2 = b.respond(&m1).unwrap();
    let m3 = a.process_message2(&m2).unwrap();
    b.process_message3(&m3).unwrap();
    let keys = a.finalize(2).unwrap();
    let addrs = addresses(10);
    let mut worker =
        EncryptorWorker::new(Role::Initiator, false, addrs, keys.encryptor, ID_A, false, None);
    let mut state = SecureChannelSharedState::create();
    for _ in 0..2 {
        let msg = LocalMessage {
            onward_route: route(&[addrs.encryptor.value]),
            return_route: route(&[]),
            payload: b"ok".to_vec(),
        };
        assert!(worker.handle_message(&mut state, addrs.encryptor, msg).is_ok());
    }
    let msg = LocalMessage {
        onward_route: route(&[addrs.encryptor.value]),
        return_route: route(&[]),
        payload: b"too many".to_vec(),
    };
    assert!(matches!(
        worker.handle_message(&mut state, addrs.encryptor, msg),
        Err(ChannelError::Cipher(_))
    ));
    // The worker is stopped for good.
    let msg = LocalMessage {
        onward_route: route(&[addrs.encryptor.value]),
        return_route: route(&[]),
        payload: b"after".to_vec(),
    };
    assert!(matches!(
        worker.handle_message(&mut state, addrs.encryptor, msg),
        Err(ChannelError::WorkerStopped)
    ));
}

#[test]
fn authentic_but_undecodable_envelope_is_fatal() {
    let key = 0x4242;
    let mut sender = Encryptor::new(key, u64::MAX);
    // A correctly encrypted buffer whose plaintext carries an unknown
    // envelope tag.
    let mut buffer = vec![0u8; 8];
    buffer.push(9);
    buffer.extend_from_slice(&[0u8; 8]);
    assert!(sender.encrypt(&mut buffer).is_ok());
    let addrs = addresses(30);
    let mut worker = DecryptorWorker::new(addrs, Decryptor::new(key), ID_A);
    let mut state = SecureChannelSharedState::create();
    let msg = LocalMessage {
        onward_route: route(&[addrs.decryptor.value]),
        return_route: route(&[]),
        payload: buffer,
    };
    assert!(matches!(
        worker.handle_message(&mut state, addrs.decryptor, &msg),
        Err(ChannelError::MalformedMessage)
    ));
    assert!(worker.stopped);
}

#[test]
fn relay_with_no_further_hops_delivers_empty_onward_route() {
    let (mut a, mut b) = establish(false);
    // The onward route holds only this worker's own hop.
    let msg = LocalMessage {
        onward_route: route(&[a.addresses.encryptor.value]),
        return_route: route(&[]),
        payload: b"short".to_vec(),
    };
    let action = a
        .encryptor
        .handle_message(&mut a.state, a.addresses.encryptor, msg)
        .unwrap();
    let ciphertext_msg = match action {
        EncryptorAction::Forwarded(m) => m,
        _ => panic!("expected a forward"),
    };
    match b
        .decryptor
        .handle_message(&mut b.state, b.addresses.decryptor, &ciphertext_msg)
        .unwrap()
    {
        DecryptorAction::Forwarded(out) => {
            assert!(out.onward_route.hops.is_empty());
            assert_eq!(out.payload, b"short".to_vec());
        }
        _ => panic!("expected a forward"),
    }
}
