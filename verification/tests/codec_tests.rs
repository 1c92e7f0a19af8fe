use secure_channel::codec::{decode_message, encode_message};
use secure_channel::messages::{
    Address, ChangeHistory, Credential, Identifier, PlaintextPayloadMessage,
    RefreshCredentialsMessage, Route, SecureChannelMessage, SecureChannelPaddedMessage,
};

fn route(hops: &[u64]) -> Route {
    let mut v = Vec::new();
    for h in hops {
        v.push(Address { value: *h });
    }
    Route::from_hops(v)
}

#[test]
fn payload_envelope_round_trips() {
    let msg = SecureChannelPaddedMessage {
        message: SecureChannelMessage::Payload(PlaintextPayloadMessage {
            onward_route: route(&[10, 20, 30]),
            return_route: route(&[7]),
            payload: b"hello".to_vec(),
        }),
        padding: vec![],
    };
    let bytes = encode_message(&msg);
    assert_eq!(bytes[0], 1, "payload envelopes carry tag 1");
    let decoded = decode_message(&bytes).unwrap();
    match decoded.message {
        SecureChannelMessage::Payload(p) => {
            assert_eq!(p.onward_route.hops.len(), 3);
            assert_eq!(p.onward_route.hops[0], Address { value: 10 });
            assert_eq!(p.onward_route.hops[2], Address { value: 30 });
            assert_eq!(p.return_route.hops, vec![Address { value: 7 }]);
            assert_eq!(p.payload, b"hello".to_vec());
        }
        _ => panic!("decoded to the wrong variant"),
    }
    assert!(decoded.padding.is_empty());
}

#[test]
fn payload_envelope_exact_bytes() {
    let msg = SecureChannelPaddedMessage {
        message: SecureChannelMessage::Payload(PlaintextPayloadMessage {
            onward_route: route(&[2]),
            return_route: route(&[]),
            payload: vec![0xab],
        }),
        padding: vec![],
    };
    let bytes = encode_message(&msg);
    let mut expected = vec![1u8];
    expected.extend_from_slice(&1u64.to_le_bytes());
    expected.extend_from_slice(&2u64.to_le_bytes());
    expected.extend_from_slice(&0u64.to_le_bytes());
    expected.extend_from_slice(&1u64.to_le_bytes());
    expected.push(0xab);
    assert_eq!(bytes, expected);
}

#[test]
fn refresh_envelope_round_trips() {
    let msg = SecureChannelPaddedMessage {
        message: SecureChannelMessage::RefreshCredentials(RefreshCredentialsMessage {
            change_history: ChangeHistory {
                subject: Identifier { value: 77 },
                public_key: 888,
                generation: 3,
            },
            credentials: vec![Credential { value: 41 }, Credential { value: 42 }],
        }),
        padding: vec![9, 9],
    };
    let bytes = encode_message(&msg);
    assert_eq!(bytes[0], 2, "refresh envelopes carry tag 2");
    let decoded = decode_message(&bytes).unwrap();
    match decoded.message {
        SecureChannelMessage::RefreshCredentials(r) => {
            assert_eq!(r.change_history.subject, Identifier { value: 77 });
            assert_eq!(r.change_history.public_key, 888);
            assert_eq!(r.change_history.generation, 3);
            assert_eq!(r.credentials, vec![Credential { value: 41 }, Credential { value: 42 }]);
        }
        _ => panic!("decoded to the wrong variant"),
    }
    assert_eq!(decoded.padding, vec![9, 9]);
}

#[test]
fn close_envelope_round_trips() {
    let msg = SecureChannelPaddedMessage {
        message: SecureChannelMessage::Close,
        padding: vec![],
    };
    let bytes = encode_message(&msg);
    assert_eq!(bytes, vec![3u8], "a close envelope is a single tag byte");
    let decoded = decode_message(&bytes).unwrap();
    assert!(matches!(decoded.message, SecureChannelMessage::Close));
    assert!(decoded.padding.is_empty());
}

#[test]
fn padding_is_preserved() {
    let msg = SecureChannelPaddedMessage {
        message: SecureChannelMessage::Close,
        padding: vec![1, 2, 3, 4],
    };
    let decoded = decode_message(&encode_message(&msg)).unwrap();
    assert_eq!(decoded.padding, vec![1, 2, 3, 4]);
}

#[test]
fn empty_input_is_rejected() {
    assert!(decode_message(&vec![]).is_none());
}

#[test]
fn unknown_tag_is_rejected() {
    assert!(decode_message(&vec![9u8, 0, 0]).is_none());
}

#[test]
fn truncated_payload_is_rejected() {
    let msg = SecureChannelPaddedMessage {
        message: SecureChannelMessage::Payload(PlaintextPayloadMessage {
            onward_route: route(&[10, 20]),
            return_route: route(&[]),
            payload: b"x".to_vec(),
        }),
        padding: vec![],
    };
    let bytes = encode_message(&msg);
    // Cutting the buffer inside the hop list leaves no valid envelope.
    let truncated = bytes[0..12].to_vec();
    assert!(decode_message(&truncated).is_none());
}

#[test]
fn oversized_count_is_rejected() {
    // A payload envelope announcing u64::MAX onward hops with no bytes
    // behind the claim.
    let mut bytes = vec![1u8];
    bytes.extend_from_slice(&u64::MAX.to_le_bytes());
    assert!(decode_message(&bytes).is_none());
}
