use smn_mora::crypto::{decrypt_bytes, encrypt_bytes, key_to_seed};

#[test]
fn round_trip_simple() {
    let content = b"some secret notes";
    let ct = encrypt_bytes("hunter2", content);
    let pt = decrypt_bytes("hunter2", &ct);
    assert_eq!(pt, content.to_vec());
}

#[test]
fn round_trip_empty_key() {
    let content = b"content under the empty passphrase";
    let ct = encrypt_bytes("", content);
    let pt = decrypt_bytes("", &ct);
    assert_eq!(pt, content.to_vec());
}

#[test]
fn round_trip_empty_content() {
    let ct = encrypt_bytes("hunter2", b"");
    assert_eq!(ct, Vec::<u8>::new());
    let pt = decrypt_bytes("hunter2", &ct);
    assert_eq!(pt, Vec::<u8>::new());
}

#[test]
fn round_trip_empty_key_and_content() {
    let ct = encrypt_bytes("", b"");
    let pt = decrypt_bytes("", &ct);
    assert_eq!(pt, Vec::<u8>::new());
}

#[test]
fn round_trip_large_content() {
    let content: Vec<u8> = (0..3000u32).map(|i| (i % 256) as u8).collect();
    let ct = encrypt_bytes("a longer passphrase with spaces", &content);
    let pt = decrypt_bytes("a longer passphrase with spaces", &ct);
    assert_eq!(pt, content);
}

#[test]
fn length_preserved() {
    for n in [0usize, 1, 11, 64, 65, 255, 256, 1000] {
        let content = vec![7u8; n];
        let ct = encrypt_bytes("k", &content);
        assert_eq!(ct.len(), n);
    }
}

#[test]
fn deterministic_fresh_encryptions() {
    let content = b"determinism check";
    let first = encrypt_bytes("same key", content);
    let second = encrypt_bytes("same key", content);
    assert_eq!(first, second);
}

#[test]
fn key_sensitivity() {
    let content = b"secret";
    let ct1 = encrypt_bytes("K1", content);
    let ct2 = encrypt_bytes("K2", content);
    assert_ne!(ct1, ct2);
    let wrong = decrypt_bytes("K2", &ct1);
    assert_ne!(wrong, content.to_vec());
}

#[test]
fn pinned_cipher_vector() {
    // Fixed regression vector: SHA-256("hunter2") seeds the 8-round ChaCha
    // stream, whose first 11 bytes XOR "hello world" to this ciphertext.
    let ct = encrypt_bytes("hunter2", b"hello world");
    assert_eq!(ct, vec![233, 128, 56, 145, 73, 97, 155, 228, 218, 191, 21]);
    let pt = decrypt_bytes("hunter2", &ct);
    assert_eq!(pt, b"hello world".to_vec());
}

#[test]
fn pinned_cipher_vector_empty_key() {
    let ct = encrypt_bytes("", b"abc");
    assert_eq!(ct, vec![99, 165, 34]);
}

#[test]
fn seed_is_sha256_of_key() {
    let seed = key_to_seed("");
    assert_eq!(
        seed.to_vec(),
        vec![
            227, 176, 196, 66, 152, 252, 28, 20, 154, 251, 244, 200, 153, 111, 185, 36, 39, 174,
            65, 228, 100, 155, 147, 76, 164, 149, 153, 27, 120, 82, 184, 85,
        ]
    );
    let seed = key_to_seed("hunter2");
    assert_eq!(
        seed.to_vec(),
        vec![
            245, 47, 189, 50, 178, 179, 184, 111, 248, 142, 246, 196, 144, 98, 130, 133, 244, 130,
            175, 21, 221, 203, 41, 84, 31, 148, 188, 245, 38, 163, 246, 199,
        ]
    );
}
