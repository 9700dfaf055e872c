use bundle_store::data_source::DataSource;
use bundle_store::id::{
    generate_change_key, generate_file_id, hash_change_key, same_bytes,
    DEFAULT_CHANGE_KEY_LENGTH, DEFAULT_ID_LENGTH, DIGEST_LENGTH,
};

#[test]
fn identifiers_are_alphanumeric_and_of_the_asked_length() {
    for len in [0usize, 1, 10, 64, 257] {
        let id = generate_file_id(len);
        assert_eq!(id.len(), len);
        assert!(id.chars().all(|c| c.is_ascii_alphanumeric()));
        let key = generate_change_key(len);
        assert_eq!(key.len(), len);
        assert!(key.chars().all(|c| c.is_ascii_alphanumeric()));
    }
}

#[test]
fn default_lengths() {
    assert_eq!(DEFAULT_ID_LENGTH, 10);
    assert_eq!(DEFAULT_CHANGE_KEY_LENGTH, 64);
    assert_eq!(DIGEST_LENGTH, 32);
}

#[test]
fn change_keys_differ_from_draw_to_draw() {
    assert_ne!(generate_change_key(64), generate_change_key(64));
}

#[test]
fn hash_is_sha256_of_the_utf8_bytes() {
    let expected: Vec<u8> = vec![
        0xba, 0x78, 0x16, 0xbf, 0x8f, 0x01, 0xcf, 0xea, 0x41, 0x41, 0x40, 0xde, 0x5d, 0xae, 0x22,
        0x23, 0xb0, 0x03, 0x61, 0xa3, 0x96, 0x17, 0x7a, 0x9c, 0xb4, 0x10, 0xff, 0x61, 0xf2, 0x00,
        0x15, 0xad,
    ];
    assert_eq!(hash_change_key("abc"), expected);
    let empty: Vec<u8> = vec![
        0xe3, 0xb0, 0xc4, 0x42, 0x98, 0xfc, 0x1c, 0x14, 0x9a, 0xfb, 0xf4, 0xc8, 0x99, 0x6f, 0xb9,
        0x24, 0x27, 0xae, 0x41, 0xe4, 0x64, 0x9b, 0x93, 0x4c, 0xa4, 0x95, 0x99, 0x1b, 0x78, 0x52,
        0xb8, 0x55,
    ];
    assert_eq!(hash_change_key(""), empty);
    assert_eq!(hash_change_key("a much longer change key than three letters").len(), 32);
}

#[test]
fn same_bytes_compares_every_byte() {
    assert!(same_bytes(&[], &[]));
    assert!(same_bytes(&[1, 2, 3], &[1, 2, 3]));
    assert!(!same_bytes(&[1, 2, 3], &[1, 2, 4]));
    assert!(!same_bytes(&[0, 2, 3], &[1, 2, 3]));
    assert!(!same_bytes(&[1, 2, 3], &[1, 2]));
    assert!(!same_bytes(&[], &[0]));
}

#[test]
fn generated_names_are_safe() {
    for _ in 0..50 {
        assert!(DataSource::check_filename(&generate_file_id(10)));
        assert!(DataSource::check_filename(&generate_change_key(64)));
    }
}
