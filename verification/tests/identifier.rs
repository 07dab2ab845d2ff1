use fido::identifier::{generate_url_hash, identifier_from_digest};

#[test]
fn identifier_of_the_empty_url() {
    // SHA-256 of no bytes starts e3 b0 c4 42 98 fc 1c 14.
    assert_eq!(generate_url_hash(""), 0xe3b0_c442_98fc_1c14);
}

#[test]
fn identifier_of_abc() {
    // SHA-256 of "abc" starts ba 78 16 bf 8f 01 cf ea.
    assert_eq!(generate_url_hash("abc"), 0xba78_16bf_8f01_cfea);
}

#[test]
fn identifier_is_stable_across_calls() {
    let first = generate_url_hash("https://good.example");
    let second = generate_url_hash("https://good.example");
    assert_eq!(first, second);
    assert_ne!(first, generate_url_hash("https://bad.example"));
}

#[test]
fn identifier_reads_the_digest_most_significant_byte_first() {
    let mut digest = [0u8; 32];
    digest[7] = 1;
    assert_eq!(identifier_from_digest(&digest), 1);
    digest[0] = 1;
    assert_eq!(identifier_from_digest(&digest), (1u64 << 56) + 1);
    digest[8] = 0xff;
    assert_eq!(identifier_from_digest(&digest), (1u64 << 56) + 1);
    let full = [0xffu8; 32];
    assert_eq!(identifier_from_digest(&full), u64::MAX);
}
