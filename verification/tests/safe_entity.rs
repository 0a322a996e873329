use smn_mora::safe::SmnSafe;

#[test]
fn new_safe_is_empty() {
    let safe = SmnSafe::new("pw".to_string(), "/tmp/safes/a".to_string());
    assert_eq!(safe.get_key(), "pw");
    assert_eq!(safe.get_location(), "/tmp/safes/a");
    assert_eq!(safe.get_content(), b"");
}

#[test]
fn set_content_replaces() {
    let mut safe = SmnSafe::new("pw".to_string(), "loc".to_string());
    safe.set_content(b"first".to_vec());
    assert_eq!(safe.get_content(), b"first");
    safe.set_content(b"second".to_vec());
    assert_eq!(safe.get_content(), b"second");
    assert_eq!(safe.get_key(), "pw");
    assert_eq!(safe.get_location(), "loc");
}

#[test]
fn set_location_keeps_rest() {
    let mut safe = SmnSafe::new("pw".to_string(), "old".to_string());
    safe.set_content(b"kept".to_vec());
    safe.set_location("new".to_string());
    assert_eq!(safe.get_location(), "new");
    assert_eq!(safe.get_key(), "pw");
    assert_eq!(safe.get_content(), b"kept");
}

#[test]
fn entity_round_trip() {
    let mut writer = SmnSafe::new("hunter2".to_string(), "x".to_string());
    writer.set_content(b"hello world".to_vec());
    let ciphertext = writer.encrypt_content();
    assert_eq!(writer.get_content(), b"hello world");

    let mut reader = SmnSafe::new("hunter2".to_string(), "x".to_string());
    reader.load_ciphertext(&ciphertext);
    assert_eq!(reader.get_content(), b"hello world");
}

#[test]
fn entity_pinned_ciphertext() {
    let mut safe = SmnSafe::new("hunter2".to_string(), "x".to_string());
    safe.set_content(b"hello world".to_vec());
    let ciphertext = safe.encrypt_content();
    assert_eq!(ciphertext, vec![233, 128, 56, 145, 73, 97, 155, 228, 218, 191, 21]);
}

#[test]
fn wrong_key_load_succeeds_with_garbage() {
    let mut writer = SmnSafe::new("right key".to_string(), "x".to_string());
    writer.set_content(b"plain".to_vec());
    let ciphertext = writer.encrypt_content();

    let mut reader = SmnSafe::new("wrong key".to_string(), "x".to_string());
    reader.load_ciphertext(&ciphertext);
    assert_eq!(reader.get_content().len(), 5);
    assert_ne!(reader.get_content(), b"plain");
}

#[test]
fn to_string_empty_content() {
    let safe = SmnSafe::new("k".to_string(), "loc".to_string());
    assert_eq!(safe.to_string(), "Key: k, \nContent: \n[]");
}

#[test]
fn to_string_small_bytes() {
    let mut safe = SmnSafe::new("k".to_string(), "loc".to_string());
    safe.set_content(vec![1, 2, 3]);
    assert_eq!(safe.to_string(), "Key: k, \nContent: \n[1, 2, 3]");
}

#[test]
fn to_string_digit_widths() {
    let mut safe = SmnSafe::new("pass phrase".to_string(), "loc".to_string());
    safe.set_content(vec![0, 9, 10, 99, 100, 255]);
    assert_eq!(
        safe.to_string(),
        "Key: pass phrase, \nContent: \n[0, 9, 10, 99, 100, 255]"
    );
}

#[test]
fn to_string_matches_debug_formatting() {
    let mut safe = SmnSafe::new("abc".to_string(), "loc".to_string());
    let content = vec![3u8, 77, 200, 0, 255, 16];
    safe.set_content(content.clone());
    assert_eq!(
        safe.to_string(),
        format!("Key: {}, \nContent: \n{:?}", "abc", content)
    );
}
