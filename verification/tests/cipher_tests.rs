use secure_channel::bitops::mix64;
use secure_channel::cipher::{CipherError, Decryptor, Encryptor};

fn framed(plaintext: &[u8]) -> Vec<u8> {
    let mut buffer = vec![0u8; 8];
    buffer.extend_from_slice(plaintext);
    buffer.extend_from_slice(&[0u8; 8]);
    buffer
}

#[test]
fn round_trip_recovers_plaintext() {
    let key = 0x1122_3344_5566_7788;
    let mut encryptor = Encryptor::new(key, u64::MAX);
    let mut decryptor = Decryptor::new(key);
    let plaintext = b"attack at dawn";
    let mut buffer = framed(plaintext);
    assert!(encryptor.encrypt(&mut buffer).is_ok());
    assert_eq!(buffer.len(), plaintext.len() + 16);
    let recovered = decryptor.decrypt(&buffer).unwrap();
    assert_eq!(recovered, plaintext.to_vec());
}

#[test]
fn round_trip_empty_plaintext() {
    let key = 7;
    let mut encryptor = Encryptor::new(key, u64::MAX);
    let mut decryptor = Decryptor::new(key);
    let mut buffer = framed(b"");
    assert!(encryptor.encrypt(&mut buffer).is_ok());
    assert_eq!(buffer.len(), 16);
    let recovered = decryptor.decrypt(&buffer).unwrap();
    assert!(recovered.is_empty());
}

#[test]
fn tamper_detection_every_single_bit() {
    let key = 0xdead_beef_cafe_f00d;
    let mut encryptor = Encryptor::new(key, u64::MAX);
    let mut buffer = framed(b"hello");
    assert!(encryptor.encrypt(&mut buffer).is_ok());
    for byte_index in 0..buffer.len() {
        for bit in 0..8 {
            let mut tampered = buffer.clone();
            tampered[byte_index] ^= 1u8 << bit;
            let mut decryptor = Decryptor::new(key);
            let result = decryptor.decrypt(&tampered);
            assert_eq!(result, Err(CipherError::AuthenticationFailed));
        }
    }
}

#[test]
fn decrypt_with_wrong_key_fails() {
    let mut encryptor = Encryptor::new(41, u64::MAX);
    let mut buffer = framed(b"payload");
    assert!(encryptor.encrypt(&mut buffer).is_ok());
    let mut decryptor = Decryptor::new(42);
    assert_eq!(decryptor.decrypt(&buffer), Err(CipherError::AuthenticationFailed));
}

#[test]
fn decrypt_short_buffer_fails() {
    let mut decryptor = Decryptor::new(3);
    let buffer = vec![0u8; 15];
    assert_eq!(decryptor.decrypt(&buffer), Err(CipherError::AuthenticationFailed));
}

#[test]
fn nonces_strictly_increase() {
    let key = 99;
    let mut encryptor = Encryptor::new(key, u64::MAX);
    let mut seen = Vec::new();
    for _ in 0..5 {
        let mut buffer = framed(b"tick");
        assert!(encryptor.encrypt(&mut buffer).is_ok());
        let nonce = u64::from_le_bytes(buffer[0..8].try_into().unwrap());
        seen.push(nonce);
    }
    assert_eq!(seen, vec![0, 1, 2, 3, 4]);
    for window in seen.windows(2) {
        assert!(window[0] < window[1]);
    }
}

#[test]
fn exhaustion_fails_and_poisons() {
    let key = 5;
    let mut encryptor = Encryptor::new(key, 2);
    let mut first = framed(b"one");
    assert!(encryptor.encrypt(&mut first).is_ok());
    let mut second = framed(b"two");
    assert!(encryptor.encrypt(&mut second).is_ok());
    let untouched = framed(b"three");
    let mut third = untouched.clone();
    assert_eq!(encryptor.encrypt(&mut third), Err(CipherError::Exhausted));
    assert_eq!(third, untouched, "a failed encryption must not emit ciphertext");
    let mut fourth = framed(b"four");
    assert_eq!(encryptor.encrypt(&mut fourth), Err(CipherError::Internal));
}

#[test]
fn decryptor_poisoned_after_failure() {
    let key = 11;
    let mut encryptor = Encryptor::new(key, u64::MAX);
    let mut buffer = framed(b"fine");
    assert!(encryptor.encrypt(&mut buffer).is_ok());
    let mut decryptor = Decryptor::new(key);
    let mut tampered = buffer.clone();
    tampered[9] ^= 0x80;
    assert_eq!(decryptor.decrypt(&tampered), Err(CipherError::AuthenticationFailed));
    // The genuine buffer is now refused too: the state is poisoned.
    assert_eq!(decryptor.decrypt(&buffer), Err(CipherError::Internal));
}

#[test]
fn decryptor_records_last_nonce() {
    let key = 21;
    let mut encryptor = Encryptor::new(key, u64::MAX);
    let mut decryptor = Decryptor::new(key);
    for expected_nonce in 0..3u64 {
        let mut buffer = framed(b"n");
        assert!(encryptor.encrypt(&mut buffer).is_ok());
        assert!(decryptor.decrypt(&buffer).is_ok());
        assert_eq!(decryptor.last_nonce, expected_nonce);
    }
}

#[test]
fn shutdown_zeroizes_and_poisons() {
    let mut encryptor = Encryptor::new(1234, u64::MAX);
    encryptor.shutdown();
    assert_eq!(encryptor.key, 0);
    let mut buffer = framed(b"late");
    assert_eq!(encryptor.encrypt(&mut buffer), Err(CipherError::Internal));
}

#[test]
fn mixing_primitive_exact_values() {
    // mix64 folds the high bits down and multiplies by the odd constant:
    // 0 stays 0, and 1 maps to the multiplier itself.
    assert_eq!(mix64(0), 0);
    assert_eq!(mix64(1), 0x9e3779b97f4a7c15);
}
