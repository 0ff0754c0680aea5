use slime_server::constants::{CLIENT_DECRYPT_KEY, CLIENT_ENCRYPT_KEY};
use slime_server::crypto::{decrypt_client_message, decrypt_with_key, encrypt_server_message, encrypt_with_key};

#[test]
fn test_rc4_roundtrip() {
    let original = b"Hello, Slime World!";
    let mut data = original.to_vec();
    encrypt_with_key(&mut data, &CLIENT_ENCRYPT_KEY);
    decrypt_client_message(&mut data);
    assert_eq!(&data, original);
}

#[test]
fn test_server_to_client_roundtrip() {
    let original = b"Welcome to the server!";
    let mut data = original.to_vec();
    encrypt_server_message(&mut data);
    decrypt_with_key(&mut data, &CLIENT_DECRYPT_KEY);
    assert_eq!(&data, original);
}

#[test]
fn test_encryption_modifies_data() {
    let original = b"Test message";
    let mut data = original.to_vec();
    encrypt_server_message(&mut data);
    assert_ne!(&data, original);
}

#[test]
fn test_different_keys_produce_different_output() {
    let original = b"Test message";
    let mut data1 = original.to_vec();
    let mut data2 = original.to_vec();
    encrypt_with_key(&mut data1, &CLIENT_ENCRYPT_KEY);
    encrypt_with_key(&mut data2, &CLIENT_DECRYPT_KEY);
    assert_ne!(data1, data2);
}

#[test]
fn test_empty_data() {
    let mut data: Vec<u8> = vec![];
    decrypt_client_message(&mut data);
    encrypt_server_message(&mut data);
    assert!(data.is_empty());
}

#[test]
fn test_binary_data() {
    let original: Vec<u8> = vec![0x00, 0x01, 0x02, 0xFF, 0xFE, 0x00, 0x10];
    let mut data = original.clone();
    encrypt_server_message(&mut data);
    decrypt_with_key(&mut data, &CLIENT_DECRYPT_KEY);
    assert_eq!(data, original);
}

#[test]
fn test_rc4_known_vector() {
    // RFC 6229-style check: key "Key", plaintext "Plaintext".
    let mut data = b"Plaintext".to_vec();
    encrypt_with_key(&mut data, b"Key");
    assert_eq!(data, vec![0xBB, 0xF3, 0x16, 0xE8, 0xD9, 0x40, 0xAF, 0x0A, 0xD3]);
}

#[test]
fn test_length_is_kept() {
    let mut data = vec![7u8; 300];
    encrypt_server_message(&mut data);
    assert_eq!(data.len(), 300);
}
