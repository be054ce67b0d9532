use openchat_core::tokens::{hash_token, token_cache_key};

#[test]
fn test_hash_token() {
    let token = "test_token_123";
    let hash = hash_token(token);
    // Hash should be deterministic
    assert_eq!(hash, hash_token(token));
    // Hash should be 64 characters (SHA256 hex)
    assert_eq!(hash.len(), 64);
}

#[test]
fn test_different_tokens_different_hashes() {
    let token1 = "token1";
    let token2 = "token2";
    assert_ne!(hash_token(token1), hash_token(token2));
}

#[test]
fn hash_token_is_the_sha256_hex_digest() {
    assert_eq!(
        hash_token("abc"),
        "ba7816bf8f01cfea414140de5dae2223b00361a396177a9cb410ff61f20015ad"
    );
    assert_eq!(
        hash_token(""),
        "e3b0c44298fc1c149afbf4c8996fb92427ae41e4649b934ca495991b7852b855"
    );
}

#[test]
fn token_cache_key_prefixes_the_hash() {
    let key = token_cache_key("abc");
    assert_eq!(
        key,
        "openchat:token:ba7816bf8f01cfea414140de5dae2223b00361a396177a9cb410ff61f20015ad"
    );
}
